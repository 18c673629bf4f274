use hourglass_control::control::{request_change, Field, Mutation};
use hourglass_control::reply::Reply;
use hourglass_control::seconds::UnderflowPolicy;

#[test]
fn each_change_writes_one_field() {
    assert_eq!(Mutation::Start.field(), Field::Ticking);
    assert_eq!(Mutation::Stop.field(), Field::Ticking);
    assert_eq!(Mutation::PlusMinute.field(), Field::RemainingSeconds);
    assert_eq!(Mutation::MinusMinute.field(), Field::RemainingSeconds);
    assert_eq!(Mutation::SetRemainingSeconds(5).field(), Field::RemainingSeconds);
    assert_eq!(Mutation::EndService.field(), Field::Finalize);
}

#[test]
fn start_and_stop_set_the_ticking_flag() {
    assert!(Mutation::Start.next_ticking(false));
    assert!(Mutation::Start.next_ticking(true));
    assert!(!Mutation::Stop.next_ticking(false));
    assert!(!Mutation::Stop.next_ticking(true));
}

#[test]
fn other_changes_keep_the_ticking_flag() {
    for mutation in [
        Mutation::PlusMinute,
        Mutation::MinusMinute,
        Mutation::SetRemainingSeconds(9),
        Mutation::EndService,
    ] {
        assert!(mutation.next_ticking(true));
        assert!(!mutation.next_ticking(false));
    }
}

#[test]
fn the_counter_follows_the_change() {
    assert_eq!(Mutation::PlusMinute.next_seconds(1200, UnderflowPolicy::Wrap), 1260);
    assert_eq!(Mutation::MinusMinute.next_seconds(1200, UnderflowPolicy::Wrap), 1140);
    assert_eq!(Mutation::MinusMinute.next_seconds(10, UnderflowPolicy::Wrap), 65486);
    assert_eq!(Mutation::MinusMinute.next_seconds(10, UnderflowPolicy::Clamp), 0);
    assert_eq!(Mutation::SetRemainingSeconds(300).next_seconds(1200, UnderflowPolicy::Wrap), 300);
    assert_eq!(Mutation::Start.next_seconds(1200, UnderflowPolicy::Wrap), 1200);
    assert_eq!(Mutation::Stop.next_seconds(1200, UnderflowPolicy::Clamp), 1200);
    assert_eq!(Mutation::EndService.next_seconds(1200, UnderflowPolicy::Wrap), 1200);
}

#[test]
fn only_end_service_sets_the_termination_flag() {
    assert!(Mutation::EndService.next_finalize(false));
    assert!(Mutation::EndService.next_finalize(true));
    for mutation in [
        Mutation::Start,
        Mutation::Stop,
        Mutation::PlusMinute,
        Mutation::MinusMinute,
        Mutation::SetRemainingSeconds(0),
    ] {
        assert!(!mutation.next_finalize(false));
        assert!(mutation.next_finalize(true));
    }
}

#[test]
fn each_change_has_its_confirmation() {
    assert_eq!(Mutation::Start.reply(), Reply::Started);
    assert_eq!(Mutation::Stop.reply(), Reply::Stopped);
    assert_eq!(Mutation::PlusMinute.reply(), Reply::MinuteAdded);
    assert_eq!(Mutation::MinusMinute.reply(), Reply::MinuteSubtracted);
    assert_eq!(Mutation::SetRemainingSeconds(300).reply(), Reply::SecondsSet(300));
    assert_eq!(Mutation::EndService.reply(), Reply::Farewell);
}

#[test]
fn a_request_with_a_number_asks_for_that_value() {
    assert_eq!(request_change(Some("300")), Ok(Mutation::SetRemainingSeconds(300)));
    assert_eq!(request_change(Some("0")), Ok(Mutation::SetRemainingSeconds(0)));
    assert_eq!(request_change(Some("65535")), Ok(Mutation::SetRemainingSeconds(65535)));
}

#[test]
fn a_request_without_a_number_is_refused() {
    assert_eq!(request_change(Some("abc")), Err(Reply::WrongArgument));
    assert_eq!(request_change(Some("")), Err(Reply::WrongArgument));
    assert_eq!(request_change(Some("-60")), Err(Reply::WrongArgument));
    assert_eq!(request_change(Some("65536")), Err(Reply::WrongArgument));
    assert_eq!(request_change(None), Err(Reply::MissingArgument));
}
