use hourglass_control::seconds::{
    add_minute, parse_seconds, push_seconds, seconds_text, subtract_minute, UnderflowPolicy,
    SECONDS_PER_MINUTE,
};

#[test]
fn a_minute_is_sixty_seconds() {
    assert_eq!(SECONDS_PER_MINUTE, 60);
}

#[test]
fn add_minute_adds_sixty() {
    assert_eq!(add_minute(0), 60);
    assert_eq!(add_minute(1200), 1260);
    assert_eq!(add_minute(65475), 65535);
}

#[test]
fn add_minute_wraps_past_the_largest_value() {
    assert_eq!(add_minute(65476), 0);
    assert_eq!(add_minute(65500), 24);
    assert_eq!(add_minute(65535), 59);
}

#[test]
fn subtract_minute_subtracts_sixty() {
    assert_eq!(subtract_minute(1200, UnderflowPolicy::Wrap), 1140);
    assert_eq!(subtract_minute(1200, UnderflowPolicy::Clamp), 1140);
    assert_eq!(subtract_minute(60, UnderflowPolicy::Wrap), 0);
    assert_eq!(subtract_minute(60, UnderflowPolicy::Clamp), 0);
}

#[test]
fn subtract_minute_below_sixty_wraps_under_wrap() {
    assert_eq!(subtract_minute(59, UnderflowPolicy::Wrap), 65535);
    assert_eq!(subtract_minute(0, UnderflowPolicy::Wrap), 65476);
    assert_eq!(subtract_minute(30, UnderflowPolicy::Wrap), 65506);
}

#[test]
fn subtract_minute_below_sixty_stops_at_zero_under_clamp() {
    assert_eq!(subtract_minute(59, UnderflowPolicy::Clamp), 0);
    assert_eq!(subtract_minute(0, UnderflowPolicy::Clamp), 0);
    assert_eq!(subtract_minute(30, UnderflowPolicy::Clamp), 0);
}

#[test]
fn plus_then_minus_restores_every_counter_under_wrap() {
    let mut seconds: u16 = 0;
    loop {
        assert_eq!(subtract_minute(add_minute(seconds), UnderflowPolicy::Wrap), seconds);
        assert_eq!(add_minute(subtract_minute(seconds, UnderflowPolicy::Wrap)), seconds);
        if seconds == u16::MAX {
            break;
        }
        seconds += 1;
    }
}

#[test]
fn plus_then_minus_restores_under_clamp_while_the_sum_fits() {
    let mut seconds: u16 = 0;
    while seconds <= u16::MAX - 60 {
        assert_eq!(subtract_minute(add_minute(seconds), UnderflowPolicy::Clamp), seconds);
        seconds += 1;
    }
    assert_eq!(subtract_minute(add_minute(65500), UnderflowPolicy::Clamp), 0);
}

#[test]
fn parse_seconds_reads_decimal_numbers() {
    assert_eq!(parse_seconds("300"), Some(300));
    assert_eq!(parse_seconds("0"), Some(0));
    assert_eq!(parse_seconds("1200"), Some(1200));
    assert_eq!(parse_seconds("65535"), Some(65535));
}

#[test]
fn parse_seconds_takes_a_plus_sign_and_leading_zeros() {
    assert_eq!(parse_seconds("+5"), Some(5));
    assert_eq!(parse_seconds("007"), Some(7));
    assert_eq!(parse_seconds("+000300"), Some(300));
    assert_eq!(parse_seconds("0000000000000000000065535"), Some(65535));
}

#[test]
fn parse_seconds_refuses_what_is_no_number() {
    assert_eq!(parse_seconds("abc"), None);
    assert_eq!(parse_seconds(""), None);
    assert_eq!(parse_seconds("+"), None);
    assert_eq!(parse_seconds("-"), None);
    assert_eq!(parse_seconds("-1"), None);
    assert_eq!(parse_seconds("-0"), None);
    assert_eq!(parse_seconds("++1"), None);
    assert_eq!(parse_seconds("1+"), None);
    assert_eq!(parse_seconds(" 300"), None);
    assert_eq!(parse_seconds("300 "), None);
    assert_eq!(parse_seconds("3_00"), None);
    assert_eq!(parse_seconds("12.5"), None);
    assert_eq!(parse_seconds("0x10"), None);
    assert_eq!(parse_seconds("1e3"), None);
    assert_eq!(parse_seconds("٣٠٠"), None);
    assert_eq!(parse_seconds("30é"), None);
}

#[test]
fn parse_seconds_refuses_what_does_not_fit() {
    assert_eq!(parse_seconds("65536"), None);
    assert_eq!(parse_seconds("70000"), None);
    assert_eq!(parse_seconds("99999999999999999999999999"), None);
    assert_eq!(parse_seconds("+65536"), None);
}

#[test]
fn parse_seconds_agrees_with_the_standard_parser() {
    let samples = [
        "", "+", "-", "0", "00", "+0", "-0", "1", "9", "10", "59", "60", "300", "+300", "0300",
        "65535", "65536", "65545", "655350", "4294967296", "429496729600000", "abc", "12a", "a12",
        "1 2", "\t1", "1\n", "+-1", "-+1", "+1+", "١٢", "1é", "é", "１２", "0b1", "1_000",
    ];
    for text in samples {
        assert_eq!(parse_seconds(text), text.parse::<u16>().ok(), "for {:?}", text);
    }
}

#[test]
fn seconds_text_writes_decimal_numbers() {
    assert_eq!(seconds_text(0), "0");
    assert_eq!(seconds_text(7), "7");
    assert_eq!(seconds_text(10), "10");
    assert_eq!(seconds_text(300), "300");
    assert_eq!(seconds_text(1200), "1200");
    assert_eq!(seconds_text(65535), "65535");
}

#[test]
fn push_seconds_appends_to_the_text() {
    let mut text = String::from("left: ");
    push_seconds(&mut text, 1260);
    assert_eq!(text, "left: 1260");
    push_seconds(&mut text, 0);
    assert_eq!(text, "left: 12600");
}

#[test]
fn the_text_of_every_counter_reads_back() {
    let mut seconds: u16 = 0;
    loop {
        let text = seconds_text(seconds);
        assert_eq!(text, format!("{}", seconds));
        assert_eq!(parse_seconds(&text), Some(seconds));
        if seconds == u16::MAX {
            break;
        }
        seconds += 1;
    }
}
