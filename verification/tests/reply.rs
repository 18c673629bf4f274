use hourglass_control::reply::Reply;

#[test]
fn confirmations_have_their_texts() {
    assert_eq!(Reply::Started.text(), "Started.");
    assert_eq!(Reply::Stopped.text(), "Stopped.");
    assert_eq!(Reply::MinuteAdded.text(), "Minute added.");
    assert_eq!(Reply::MinuteSubtracted.text(), "Minute subtracted.");
    assert_eq!(Reply::Farewell.text(), "Good bye!");
}

#[test]
fn the_ticking_flag_is_written_as_true_or_false() {
    assert_eq!(Reply::Ticking(true).text(), "true");
    assert_eq!(Reply::Ticking(false).text(), "false");
}

#[test]
fn the_remaining_seconds_are_written_in_decimal() {
    assert_eq!(Reply::RemainingSeconds(1200).text(), "1200");
    assert_eq!(Reply::RemainingSeconds(0).text(), "0");
    assert_eq!(Reply::RemainingSeconds(65535).text(), "65535");
}

#[test]
fn a_set_value_is_confirmed_with_the_value() {
    assert_eq!(Reply::SecondsSet(300).text(), "Set remaining seconds to 300");
    assert_eq!(Reply::SecondsSet(0).text(), "Set remaining seconds to 0");
}

#[test]
fn refusals_have_their_texts() {
    assert_eq!(
        Reply::WrongArgument.text(),
        "Remaining seconds not changed, wrong argument. Try a positive number."
    );
    assert_eq!(
        Reply::MissingArgument.text(),
        "Remaining seconds not changed, missing argument."
    );
}
