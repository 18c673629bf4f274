//! The remaining-seconds counter: its arithmetic and its decimal text form.

use vstd::prelude::*;
use vstd::string::*;

verus! {

/// The step by which the counter is adjusted.
pub const SECONDS_PER_MINUTE: u16 = 60;

/// The byte of the plus sign.
const ASCII_PLUS: u8 = 0x2b;

/// The byte of the digit zero.
const ASCII_ZERO: u8 = 0x30;

/// The byte of the digit nine.
const ASCII_NINE: u8 = 0x39;

/// What subtracting a minute does when fewer than sixty seconds remain.
#[derive(Clone, Copy, Debug, PartialEq, Eq, Structural)]
pub enum UnderflowPolicy {
    /// The counter wraps around the 16-bit range.
    Wrap,
    /// The counter stops at zero.
    Clamp,
}

/// The counter after a minute was added: the sum, wrapped around the 16-bit
/// range.
pub open spec fn minute_added(seconds: u16) -> u16 {
    if seconds + SECONDS_PER_MINUTE <= u16::MAX {
        (seconds + SECONDS_PER_MINUTE) as u16
    } else {
        (seconds + SECONDS_PER_MINUTE - 0x1_0000) as u16
    }
}

/// The counter after a minute was subtracted under `policy`.
pub open spec fn minute_subtracted(seconds: u16, policy: UnderflowPolicy) -> u16 {
    if seconds >= SECONDS_PER_MINUTE {
        (seconds - SECONDS_PER_MINUTE) as u16
    } else {
        match policy {
            UnderflowPolicy::Wrap => (seconds - SECONDS_PER_MINUTE + 0x1_0000) as u16,
            UnderflowPolicy::Clamp => 0,
        }
    }
}

/// Adds a minute to the counter. No bound is enforced: past the largest value
/// the counter wraps.
pub fn add_minute(seconds: u16) -> (next: u16)
    ensures
        next == minute_added(seconds),
{
    seconds.wrapping_add(SECONDS_PER_MINUTE)
}

/// Subtracts a minute from the counter. Below sixty seconds `policy` decides.
pub fn subtract_minute(seconds: u16, policy: UnderflowPolicy) -> (next: u16)
    ensures
        next == minute_subtracted(seconds, policy),
{
    match policy {
        UnderflowPolicy::Wrap => seconds.wrapping_sub(SECONDS_PER_MINUTE),
        UnderflowPolicy::Clamp => seconds.saturating_sub(SECONDS_PER_MINUTE),
    }
}

/// Adding a minute and then subtracting one gives the counter back, whenever
/// the subtraction wraps or the addition stayed within the 16-bit range.
pub proof fn lemma_plus_then_minus_restores(seconds: u16, policy: UnderflowPolicy)
    requires
        policy == UnderflowPolicy::Wrap || seconds + SECONDS_PER_MINUTE <= u16::MAX,
    ensures
        minute_subtracted(minute_added(seconds), policy) == seconds,
{
}

/// Under the wrapping policy, subtracting a minute and then adding one gives
/// the counter back too.
pub proof fn lemma_minus_then_plus_restores(seconds: u16)
    ensures
        minute_added(minute_subtracted(seconds, UnderflowPolicy::Wrap)) == seconds,
{
}

/// Is `c` one of the ten decimal digits?
pub open spec fn is_digit(c: char) -> bool {
    '0' <= c <= '9'
}

/// The number that a decimal digit stands for.
pub open spec fn digit_value(c: char) -> nat {
    (c as u32 - '0' as u32) as nat
}

/// The decimal digit that stands for `d`.
pub open spec fn digit_char(d: nat) -> char {
    (d + '0' as u32) as char
}

/// Is every character of `digits` a decimal digit?
pub open spec fn all_digits(digits: Seq<char>) -> bool {
    forall|i: int| 0 <= i < digits.len() ==> is_digit(#[trigger] digits[i])
}

/// The number that a sequence of decimal digits stands for, most significant
/// digit first.
pub open spec fn digits_value(digits: Seq<char>) -> nat
    decreases digits.len(),
{
    if digits.len() == 0 {
        0
    } else {
        digits_value(digits.drop_last()) * 10 + digit_value(digits.last())
    }
}

/// The text without one leading plus sign.
pub open spec fn unsigned_part(text: Seq<char>) -> Seq<char> {
    if text.len() > 0 && text[0] == '+' {
        text.skip(1)
    } else {
        text
    }
}

/// The counter value that a text stands for: an optional plus sign, then one or
/// more decimal digits and nothing else, with a value that fits in 16 bits.
pub open spec fn parsed_seconds(text: Seq<char>) -> Option<u16> {
    let digits = unsigned_part(text);
    if digits.len() > 0 && all_digits(digits) && digits_value(digits) <= u16::MAX {
        Some(digits_value(digits) as u16)
    } else {
        None
    }
}

/// The decimal form of `n`, without leading zeros.
pub open spec fn decimal_digits(n: nat) -> Seq<char>
    decreases n,
{
    if n < 10 {
        seq![digit_char(n)]
    } else {
        decimal_digits(n / 10).push(digit_char(n % 10))
    }
}

/// A prefix of a digit sequence never stands for more than the whole.
proof fn lemma_prefix_value_bounded(digits: Seq<char>, k: int)
    requires
        0 <= k <= digits.len(),
    ensures
        digits_value(digits.take(k)) <= digits_value(digits),
    decreases digits.len() - k,
{
    if k == digits.len() {
        assert(digits.take(k) =~= digits);
    } else {
        assert(digits.take(k + 1).drop_last() =~= digits.take(k));
        lemma_prefix_value_bounded(digits, k + 1);
    }
}

/// A text with a character outside ASCII stands for no counter value.
proof fn lemma_non_ascii_is_no_number(text: Seq<char>)
    requires
        !vstd::utf8::is_ascii_chars(text),
    ensures
        parsed_seconds(text) is None,
{
    let digits = unsigned_part(text);
    if all_digits(digits) {
        assert forall|i: int| 0 <= i < text.len() implies '\0' <= #[trigger] text[i] <= '\u{7f}' by {
            if text[0] == '+' {
                if i > 0 {
                    assert(is_digit(digits[i - 1]));
                }
            } else {
                assert(is_digit(digits[i]));
            }
        }
    }
}

/// Reads a counter value from its decimal text. `None` when the text is no
/// number of the accepted form or the number does not fit.
pub fn parse_seconds(text: &str) -> (parsed: Option<u16>)
    ensures
        parsed == parsed_seconds(text@),
{
    broadcast use is_ascii_spec_bytes;

    if !text.is_ascii() {
        proof {
            lemma_non_ascii_is_no_number(text@);
        }
        return None;
    }
    let bytes = text.as_bytes();
    let len = bytes.len();
    if len == 0 {
        return None;
    }
    let start: usize = if bytes[0] == ASCII_PLUS { 1 } else { 0 };
    let ghost digits = unsigned_part(text@);
    if start == len {
        return None;
    }
    let mut index: usize = start;
    let mut value: u32 = 0;
    while index < len
        invariant
            start <= index <= len,
            len == text@.len(),
            len == bytes@.len(),
            is_ascii(text),
            bytes@ == text.spec_bytes(),
            digits == text@.skip(start as int),
            digits == unsigned_part(text@),
            all_digits(digits.take(index - start)),
            value == digits_value(digits.take(index - start)),
            value <= u16::MAX,
        decreases len - index,
    {
        let byte = bytes[index];
        let ghost here = index - start;
        let ghost c = text@[index as int];
        assert(0 <= here < digits.len() && digits[here] == c);
        assert('\0' <= c <= '\u{7f}');
        assert(byte == c as u8 && byte as u32 == c as u32);
        assert(digits.take(here + 1).drop_last() =~= digits.take(here));
        if byte < ASCII_ZERO || byte > ASCII_NINE {
            assert(!is_digit(digits[here]));
            return None;
        }
        assert(is_digit(c) && digit_value(c) == byte - ASCII_ZERO);
        value = value * 10 + (byte - ASCII_ZERO) as u32;
        assert(value == digits_value(digits.take(here + 1)));
        if value > 0xffff {
            proof {
                lemma_prefix_value_bounded(digits, here + 1);
            }
            return None;
        }
        index += 1;
    }
    assert(digits.take(index - start) =~= digits);
    Some(value as u16)
}

/// The decimal form of a number is made of digits alone and stands for that
/// number.
pub proof fn lemma_decimal_digits_value(n: nat)
    ensures
        decimal_digits(n).len() > 0,
        all_digits(decimal_digits(n)),
        digits_value(decimal_digits(n)) == n,
    decreases n,
{
    if n < 10 {
        assert(decimal_digits(n).drop_last() =~= Seq::<char>::empty());
        assert(digits_value(decimal_digits(n).drop_last()) == 0);
    } else {
        lemma_decimal_digits_value(n / 10);
        assert(decimal_digits(n).drop_last() =~= decimal_digits(n / 10));
    }
}

/// Reading the decimal form of a counter value gives that value back.
pub proof fn lemma_parse_of_decimal_form(seconds: u16)
    ensures
        parsed_seconds(decimal_digits(seconds as nat)) == Some(seconds),
{
    let text = decimal_digits(seconds as nat);
    lemma_decimal_digits_value(seconds as nat);
    assert(is_digit(text[0]));
}

/// The one-character text of a decimal digit.
fn digit_text(digit: u16) -> (text: &'static str)
    requires
        digit < 10,
    ensures
        text@ == seq![digit_char(digit as nat)],
{
    proof {
        reveal_strlit("0");
        reveal_strlit("1");
        reveal_strlit("2");
        reveal_strlit("3");
        reveal_strlit("4");
        reveal_strlit("5");
        reveal_strlit("6");
        reveal_strlit("7");
        reveal_strlit("8");
        reveal_strlit("9");
    }
    let text = match digit {
        0 => "0",
        1 => "1",
        2 => "2",
        3 => "3",
        4 => "4",
        5 => "5",
        6 => "6",
        7 => "7",
        8 => "8",
        _ => "9",
    };
    assert(text@ =~= seq![digit_char(digit as nat)]);
    text
}

/// Appends the decimal form of `seconds` to `text`.
pub fn push_seconds(text: &mut String, seconds: u16)
    ensures
        final(text)@ == old(text)@ + decimal_digits(seconds as nat),
    decreases seconds,
{
    if seconds >= 10 {
        push_seconds(text, seconds / 10);
    }
    text.append(digit_text(seconds % 10));
    assert(final(text)@ =~= old(text)@ + decimal_digits(seconds as nat));
}

/// The decimal text of a counter value.
pub fn seconds_text(seconds: u16) -> (text: String)
    ensures
        text@ == decimal_digits(seconds as nat),
{
    let mut text = String::new();
    push_seconds(&mut text, seconds);
    assert(text@ =~= decimal_digits(seconds as nat));
    text
}

} // verus!
