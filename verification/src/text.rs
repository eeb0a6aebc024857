//! Text helpers shared by the crawler, the prober and the reader: character
//! access, comparison, slicing and decimal rendering, and the two calls into
//! the standard library whose contracts are taken on trust: lower-casing and
//! the decoding of UTF-8.

use vstd::prelude::*;
use vstd::string::*;
use vstd::utf8::{decode_utf8, valid_utf8};

verus! {

/// The decimal digit that stands for `d`, for `d` below ten.
pub open spec fn digit_char(d: nat) -> char {
    if d == 0 {
        '0'
    } else if d == 1 {
        '1'
    } else if d == 2 {
        '2'
    } else if d == 3 {
        '3'
    } else if d == 4 {
        '4'
    } else if d == 5 {
        '5'
    } else if d == 6 {
        '6'
    } else if d == 7 {
        '7'
    } else if d == 8 {
        '8'
    } else {
        '9'
    }
}

/// The decimal notation of `n`: no sign, no leading zero, `"0"` for zero.
pub open spec fn decimal_text(n: nat) -> Seq<char>
    decreases n,
{
    if n < 10 {
        seq![digit_char(n)]
    } else {
        decimal_text(n / 10).push(digit_char(n % 10))
    }
}

/// The characters of an optional text.
pub open spec fn text_view(text: Option<String>) -> Option<Seq<char>> {
    match text {
        Some(s) => Some(s@),
        None => None,
    }
}

/// The characters of `s`, in order.
pub fn chars_of(s: &str) -> (chars: Vec<char>)
    ensures
        chars@ == s@,
{
    let mut chars: Vec<char> = Vec::new();
    for c in it: s.chars()
        invariant
            chars@ == it.seq().take(it.index() as int),
            it.seq() == s@,
    {
        chars.push(c);
    }
    chars
}

/// Whether two string slices hold the same characters.
pub fn same_text(a: &str, b: &str) -> (same: bool)
    ensures
        same == (a@ == b@),
{
    let left = chars_of(a);
    let right = chars_of(b);
    if left.len() != right.len() {
        return false;
    }
    let mut i: usize = 0;
    while i < left.len()
        invariant
            i <= left.len(),
            left.len() == right.len(),
            left@ == a@,
            right@ == b@,
            forall|k: int| 0 <= k < i ==> left@[k] == right@[k],
        decreases left.len() - i,
    {
        if left[i] != right[i] {
            return false;
        }
        i += 1;
    }
    assert(a@ =~= b@);
    true
}

/// The characters of `s` from position `from` up to, not including, position `to`.
pub(crate) fn slice_text(s: &str, from: usize, to: usize) -> (piece: String)
    requires
        from <= to <= s@.len(),
    ensures
        piece@ == s@.subrange(from as int, to as int),
{
    s.substring_char(from, to).to_owned()
}

/// The one-character string that shows the digit `d`.
fn digit_text(d: u8) -> (text: &'static str)
    requires
        d < 10,
    ensures
        text@ == seq![digit_char(d as nat)],
{
    proof {
        reveal_strlit("0");
        reveal_strlit("1");
        reveal_strlit("2");
        reveal_strlit("3");
        reveal_strlit("4");
        reveal_strlit("5");
        reveal_strlit("6");
        reveal_strlit("7");
        reveal_strlit("8");
        reveal_strlit("9");
    }
    let text = if d == 0 {
        "0"
    } else if d == 1 {
        "1"
    } else if d == 2 {
        "2"
    } else if d == 3 {
        "3"
    } else if d == 4 {
        "4"
    } else if d == 5 {
        "5"
    } else if d == 6 {
        "6"
    } else if d == 7 {
        "7"
    } else if d == 8 {
        "8"
    } else {
        "9"
    };
    assert(text@ =~= seq![digit_char(d as nat)]);
    text
}

/// Renders `n` in decimal notation.
pub fn decimal_string(n: u128) -> (text: String)
    ensures
        text@ == decimal_text(n as nat),
{
    // Digits are produced least significant first, then written out in reverse.
    let mut digits: Vec<u8> = Vec::new();
    let mut rest: u128 = n;
    while rest >= 10
        invariant
            forall|k: int| 0 <= k < digits.len() ==> digits@[k] < 10,
            decimal_text(n as nat) == decimal_text(rest as nat) + Seq::new(
                digits.len() as nat,
                |k: int| digit_char(digits@[digits.len() - 1 - k] as nat),
            ),
        decreases rest,
    {
        let ghost before = digits@;
        let ghost tail = Seq::new(
            before.len(),
            |k: int| digit_char(before[before.len() - 1 - k] as nat),
        );
        let d: u8 = (rest % 10) as u8;
        digits.push(d);
        proof {
            let now = Seq::new(
                digits.len() as nat,
                |k: int| digit_char(digits@[digits.len() - 1 - k] as nat),
            );
            assert(now =~= seq![digit_char(d as nat)] + tail);
            assert(decimal_text(rest as nat) == decimal_text((rest / 10) as nat).push(
                digit_char((rest % 10) as nat),
            ));
            assert(decimal_text(rest as nat) + tail =~= decimal_text((rest / 10) as nat) + now);
        }
        rest = rest / 10;
    }
    let mut text = String::new();
    text.append(digit_text(rest as u8));
    let mut i: usize = digits.len();
    while i > 0
        invariant
            i <= digits.len(),
            forall|k: int| 0 <= k < digits.len() ==> digits@[k] < 10,
            text@ == decimal_text(rest as nat) + Seq::new(
                (digits.len() - i) as nat,
                |k: int| digit_char(digits@[digits.len() - 1 - k] as nat),
            ),
        decreases i,
    {
        let ghost before = text@;
        i -= 1;
        text.append(digit_text(digits[i]));
        assert(text@ =~= decimal_text(rest as nat) + Seq::new(
            (digits.len() - i) as nat,
            |k: int| digit_char(digits@[digits.len() - 1 - k] as nat),
        ));
    }
    text
}

/// What `str::to_lowercase` makes of a text: its lower-case form under the
/// Unicode case mapping that the standard library carries.
pub uninterp spec fn lowercase_of(text: Seq<char>) -> Seq<char>;

/// Calls `str::to_lowercase`. The result is the standard library's lower-case
/// form of `s`, which depends on the characters of `s` alone; the mapping
/// itself is not spelled out here.
#[verifier::external_body]
pub(crate) fn lowercase(s: &str) -> (lowered: String)
    ensures
        lowered@ == lowercase_of(s@),
{
    s.to_lowercase()
}

/// Calls `String::from_utf8`: the text that the bytes encode, or `None` where
/// the bytes are not valid UTF-8.
#[verifier::external_body]
pub(crate) fn text_from_utf8(bytes: Vec<u8>) -> (text: Option<String>)
    ensures
        match text {
            Some(s) => valid_utf8(bytes@) && s@ == decode_utf8(bytes@),
            None => !valid_utf8(bytes@),
        },
{
    String::from_utf8(bytes).ok()
}

} // verus!
