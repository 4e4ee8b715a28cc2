//! Text helpers: byte lengths, control characters, prefixes, decimal numerals.

use vstd::prelude::*;
use vstd::utf8::*;

verus! {

/// The number of bytes of a text in UTF-8.
pub open spec fn utf8_len(text: Seq<char>) -> nat {
    encode_utf8(text).len()
}

/// Whether a character is a control code, U+0000 to U+001F or U+007F to U+009F.
pub open spec fn is_control(c: char) -> bool {
    c as u32 <= 0x1f || 0x7f <= c as u32 <= 0x9f
}

/// Whether a text holds no control character.
pub open spec fn control_free(text: Seq<char>) -> bool {
    forall|i: int| 0 <= i < text.len() ==> !is_control(#[trigger] text[i])
}

/// Whether a text is not empty, takes at most `limit` bytes and holds no control character.
pub open spec fn is_label(text: Seq<char>, limit: nat) -> bool {
    &&& text.len() > 0
    &&& utf8_len(text) <= limit
    &&& control_free(text)
}

/// What an optional text is.
pub open spec fn optional_text(text: Option<String>) -> Option<Seq<char>> {
    match text {
        Some(text) => Some(text@),
        None => None,
    }
}

/// The decimal numeral of a number, without leading zeros.
pub open spec fn decimal(n: nat) -> Seq<char>
    decreases n,
{
    if n < 10 {
        seq![digit(n)]
    } else {
        decimal(n / 10).push(digit(n % 10))
    }
}

/// The character of one decimal digit.
pub open spec fn digit(n: nat) -> char {
    (('0' as u32) + n) as char
}

/// The length of a text in bytes.
pub fn byte_len(text: &str) -> (len: usize)
    ensures
        len == utf8_len(text@),
{
    text.as_bytes().len()
}

/// Whether two texts are the same.
pub fn same_text(a: &str, b: &str) -> (same: bool)
    ensures
        same == (a@ == b@),
{
    let mut left = a.chars();
    let mut right = b.chars();
    let ghost mut at: int = 0;
    loop
        invariant
            0 <= at <= a@.len(),
            at <= b@.len(),
            vstd::std_specs::iter::IteratorSpec::remaining(&left) == a@.skip(at),
            vstd::std_specs::iter::IteratorSpec::remaining(&right) == b@.skip(at),
            a@.take(at) == b@.take(at),
        decreases a@.len() - at,
    {
        match (left.next(), right.next()) {
            (None, None) => {
                assert(a@.take(at) == a@);
                assert(b@.take(at) == b@);
                return true;
            },
            (Some(x), Some(y)) => {
                if x != y {
                    assert(a@[at] != b@[at]);
                    return false;
                }
                proof {
                    assert(a@.take(at + 1) == a@.take(at).push(a@[at]));
                    assert(b@.take(at + 1) == b@.take(at).push(b@[at]));
                    assert(a@.skip(at).drop_first() == a@.skip(at + 1));
                    assert(b@.skip(at).drop_first() == b@.skip(at + 1));
                    at = at + 1;
                }
            },
            _ => {
                return false;
            },
        }
    }
}

/// Whether a text starts with a prefix.
pub fn starts_with(text: &str, prefix: &str) -> (starts: bool)
    ensures
        starts == prefix@.is_prefix_of(text@),
{
    let mut left = prefix.chars();
    let mut right = text.chars();
    let ghost mut at: int = 0;
    loop
        invariant
            0 <= at <= prefix@.len(),
            at <= text@.len(),
            vstd::std_specs::iter::IteratorSpec::remaining(&left) == prefix@.skip(at),
            vstd::std_specs::iter::IteratorSpec::remaining(&right) == text@.skip(at),
            prefix@.take(at) == text@.take(at),
        decreases prefix@.len() - at,
    {
        match (left.next(), right.next()) {
            (None, _) => {
                assert(prefix@.take(at) == prefix@);
                assert(prefix@ == text@.subrange(0, prefix@.len() as int));
                return true;
            },
            (Some(x), Some(y)) => {
                if x != y {
                    assert(prefix@[at] != text@[at]);
                    return false;
                }
                proof {
                    assert(prefix@.take(at + 1) == prefix@.take(at).push(prefix@[at]));
                    assert(text@.take(at + 1) == text@.take(at).push(text@[at]));
                    assert(prefix@.skip(at).drop_first() == prefix@.skip(at + 1));
                    assert(text@.skip(at).drop_first() == text@.skip(at + 1));
                    at = at + 1;
                }
            },
            (Some(_), None) => {
                return false;
            },
        }
    }
}

/// Whether a text holds no control character.
pub fn without_control(text: &str) -> (free: bool)
    ensures
        free == control_free(text@),
{
    let mut chars = text.chars();
    let ghost mut at: int = 0;
    loop
        invariant
            0 <= at <= text@.len(),
            vstd::std_specs::iter::IteratorSpec::remaining(&chars) == text@.skip(at),
            control_free(text@.take(at)),
        decreases text@.len() - at,
    {
        match chars.next() {
            None => {
                assert(text@.take(at) == text@);
                return true;
            },
            Some(c) => {
                let code: u32 = c as u32;
                if code <= 0x1f || (0x7f <= code && code <= 0x9f) {
                    assert(is_control(text@[at]));
                    return false;
                }
                proof {
                    assert(text@.take(at + 1) == text@.take(at).push(text@[at]));
                    assert(text@.skip(at).drop_first() == text@.skip(at + 1));
                    at = at + 1;
                }
            },
        }
    }
}

/// Whether a text is not empty, takes at most `limit` bytes and holds no control character.
pub fn label(text: &str, limit: usize) -> (fits: bool)
    ensures
        fits == is_label(text@, limit as nat),
{
    !text.is_empty() && byte_len(text) <= limit && without_control(text)
}

/// The text of one decimal digit.
fn digit_text(n: u64) -> (text: &'static str)
    requires
        n < 10,
    ensures
        text@ == seq![digit(n as nat)],
{
    proof {
        reveal_strlit("0");
        reveal_strlit("1");
        reveal_strlit("2");
        reveal_strlit("3");
        reveal_strlit("4");
        reveal_strlit("5");
        reveal_strlit("6");
        reveal_strlit("7");
        reveal_strlit("8");
        reveal_strlit("9");
    }
    if n == 0 {
        "0"
    } else if n == 1 {
        "1"
    } else if n == 2 {
        "2"
    } else if n == 3 {
        "3"
    } else if n == 4 {
        "4"
    } else if n == 5 {
        "5"
    } else if n == 6 {
        "6"
    } else if n == 7 {
        "7"
    } else if n == 8 {
        "8"
    } else {
        "9"
    }
}

/// The decimal numeral of a number.
pub fn decimal_text(n: u64) -> (text: String)
    ensures
        text@ == decimal(n as nat),
    decreases n,
{
    if n < 10 {
        digit_text(n).to_owned()
    } else {
        let mut text = decimal_text(n / 10);
        text.append(digit_text(n % 10));
        text
    }
}

/// Two numbers with the same decimal numeral are the same number.
pub proof fn decimal_is_injective(a: nat, b: nat)
    requires
        decimal(a) == decimal(b),
    ensures
        a == b,
    decreases a,
{
    assert(decimal(a).len() == decimal(b).len());
    decimal_is_not_empty(a / 10);
    decimal_is_not_empty(b / 10);
    assert(decimal(a).last() == digit(a % 10) && decimal(b).last() == digit(b % 10));
    assert(digit(a % 10) as u32 == '0' as u32 + a % 10);
    assert(digit(b % 10) as u32 == '0' as u32 + b % 10);
    if a >= 10 && b >= 10 {
        assert(decimal(a).drop_last() == decimal(a / 10));
        assert(decimal(b).drop_last() == decimal(b / 10));
        decimal_is_injective(a / 10, b / 10);
    }
}

proof fn decimal_is_not_empty(n: nat)
    ensures
        decimal(n).len() > 0,
{
}

} // verus!
