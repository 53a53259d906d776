//! Text that the server writes down: comparison, concatenation and the
//! spelling of identities and numbers.

use vstd::prelude::*;
use crate::ids::{self, hyphenated};

verus! {

/// Whether two strings hold the same characters.
pub fn same_text(left: &str, right: &str) -> (r: bool)
    ensures
        r == (left@ == right@),
{
    let left_len: usize = left.unicode_len();
    let right_len: usize = right.unicode_len();
    if left_len != right_len {
        return false;
    }
    let mut i: usize = 0;
    while i < left_len
        invariant
            i <= left_len,
            left_len == left@.len(),
            right@.len() == left@.len(),
            forall|j: int| 0 <= j < i ==> left@[j] == right@[j],
        decreases left_len - i,
    {
        if left.get_char(i) != right.get_char(i) {
            return false;
        }
        i = i + 1;
    }
    assert(left@ =~= right@);
    true
}

/// The decimal digit for `0..=9`.
pub open spec fn decimal_digit(digit: int) -> Seq<char> {
    if digit == 0 {
        "0"@
    } else if digit == 1 {
        "1"@
    } else if digit == 2 {
        "2"@
    } else if digit == 3 {
        "3"@
    } else if digit == 4 {
        "4"@
    } else if digit == 5 {
        "5"@
    } else if digit == 6 {
        "6"@
    } else if digit == 7 {
        "7"@
    } else if digit == 8 {
        "8"@
    } else {
        "9"@
    }
}

/// `value` in decimal, without leading zeros.
pub open spec fn decimal_text(value: nat) -> Seq<char>
    decreases value,
{
    if value < 10 {
        decimal_digit(value as int)
    } else {
        decimal_text(value / 10) + decimal_digit((value % 10) as int)
    }
}

/// Ten multiplied by itself `count` times.
pub open spec fn ten_to(count: nat) -> nat
    decreases count,
{
    if count == 0 {
        1
    } else {
        10 * ten_to((count - 1) as nat)
    }
}

/// A number below ten to the power of `count` is written with at most `count`
/// digits.
pub proof fn decimal_text_is_short(value: nat, count: nat)
    requires
        count >= 1,
        value < ten_to(count),
    ensures
        decimal_text(value).len() <= count,
    decreases count,
{
    reveal_strlit("0");
    reveal_strlit("1");
    reveal_strlit("2");
    reveal_strlit("3");
    reveal_strlit("4");
    reveal_strlit("5");
    reveal_strlit("6");
    reveal_strlit("7");
    reveal_strlit("8");
    reveal_strlit("9");
    if value >= 10 {
        if count == 1 {
            reveal_with_fuel(ten_to, 2);
        }
        decimal_text_is_short(value / 10, (count - 1) as nat);
    }
}

fn digit_str(digit: u64) -> (r: &'static str)
    requires
        digit < 10,
    ensures
        r@ == decimal_digit(digit as int),
{
    match digit {
        0 => "0",
        1 => "1",
        2 => "2",
        3 => "3",
        4 => "4",
        5 => "5",
        6 => "6",
        7 => "7",
        8 => "8",
        _ => "9",
    }
}

/// Writes `value` in decimal.
pub fn decimal(value: u64) -> (r: String)
    ensures
        r@ == decimal_text(value as nat),
    decreases value,
{
    if value < 10 {
        let mut text = String::new();
        text.append(digit_str(value));
        assert(text@ =~= decimal_digit(value as int));
        text
    } else {
        let mut text = decimal(value / 10);
        text.append(digit_str(value % 10));
        text
    }
}

/// An identity as it appears in a log line: its kind, then the UUID in
/// parentheses.
pub open spec fn identity_text(kind: Seq<char>, value: u128) -> Seq<char> {
    kind + "("@ + ids::hyphenated_text(value) + ")"@
}

/// Appends the log spelling of an identity.
pub fn append_identity(text: &mut String, kind: &str, value: u128)
    ensures
        final(text)@ == old(text)@ + identity_text(kind@, value),
{
    text.append(kind);
    text.append("(");
    text.append(hyphenated(value).as_str());
    text.append(")");
    assert(text@ =~= old(text)@ + identity_text(kind@, value));
}

/// A number is written digit by digit: the last is what is left over of tens, and the
/// ones before it are those of the tens.
pub proof fn number_is_written_digit_by_digit(value: u64, r: String, tens: String)
    requires
        call_ensures(decimal, (value,), r),
        call_ensures(decimal, ((value / 10) as u64,), tens),
    ensures
        value < 10 ==> r@ == seq![('0' as u32 + value) as char],
        value >= 10 ==> r@ == tens@ + seq![('0' as u32 + value % 10) as char],
{
    reveal_strlit("0");
    reveal_strlit("1");
    reveal_strlit("2");
    reveal_strlit("3");
    reveal_strlit("4");
    reveal_strlit("5");
    reveal_strlit("6");
    reveal_strlit("7");
    reveal_strlit("8");
    reveal_strlit("9");
    assert(decimal_digit((value % 10) as int) =~= seq![('0' as u32 + value % 10) as char]);
}

/// An identity is appended behind what was there: its kind, and the canonical text in
/// parentheses.
pub proof fn identity_is_appended_with_its_kind(text: &mut String, kind: &str, value: u128)
    requires
        call_ensures(append_identity, (text, kind, value), ()),
    ensures
        final(text)@ == old(text)@ + (kind@ + "("@ + ids::hyphenated_text(value) + ")"@),
{
}

/// Two texts are the same exactly where they agree at every place.
pub proof fn same_text_agrees_everywhere(left: &str, right: &str, r: bool)
    requires
        call_ensures(same_text, (left, right), r),
    ensures
        r <==> left@.len() == right@.len() && forall|i: int|
            0 <= i < left@.len() ==> #[trigger] left@[i] == right@[i],
{
    if left@.len() == right@.len() && forall|i: int|
        0 <= i < left@.len() ==> #[trigger] left@[i] == right@[i] {
        assert(left@ =~= right@);
    }
}

} // verus!
