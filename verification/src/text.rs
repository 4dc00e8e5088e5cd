//! Text helpers of the command layer: decoding keys, matching command names
//! and rendering the numbers that error messages carry.

use vstd::prelude::*;
use vstd::utf8::{decode_utf8, encode_utf8, valid_utf8};

verus! {

/// Calls [`String::from_utf8`], which checks that the bytes are UTF-8 and, if
/// so, hands them back as a `String` without changing them. Assumed of it:
/// the result is `Some` exactly when the bytes are valid UTF-8, and the text
/// is then the characters that the bytes encode.
#[verifier::external_body]
pub(crate) fn text_from_utf8(bytes: Vec<u8>) -> (r: Option<String>)
    ensures
        r is Some <==> valid_utf8(bytes@),
        r matches Some(s) ==> s@ == decode_utf8(bytes@),
{
    match String::from_utf8(bytes) {
        Ok(s) => Some(s),
        Err(_) => None,
    }
}

/// A byte with an ASCII capital letter turned into its small letter.
pub open spec fn lower(b: u8) -> u8 {
    if 65 <= b && b <= 90 {
        (b + 32) as u8
    } else {
        b
    }
}

/// A byte string with every ASCII capital letter turned into its small letter.
pub open spec fn lowered(bytes: Seq<u8>) -> Seq<u8> {
    Seq::new(bytes.len(), |i: int| lower(bytes[i]))
}

/// Whether `bytes` spell `name`, the case of ASCII letters in `bytes` set
/// aside: lowered, they are the UTF-8 bytes of `name`.
pub open spec fn spells(bytes: Seq<u8>, name: Seq<char>) -> bool {
    lowered(bytes) == encode_utf8(name)
}

/// Lowers one byte.
pub fn ascii_lower(b: u8) -> (r: u8)
    ensures
        r == lower(b),
{
    if 65 <= b && b <= 90 {
        b + 32
    } else {
        b
    }
}

/// Decides [`spells`].
pub fn spells_name(bytes: &Vec<u8>, name: &str) -> (r: bool)
    ensures
        r == spells(bytes@, name@),
{
    let wanted = name.as_bytes();
    if bytes.len() != wanted.len() {
        return false;
    }
    let mut i: usize = 0;
    while i < bytes.len()
        invariant
            wanted@ == encode_utf8(name@),
            bytes.len() == wanted.len(),
            i <= bytes.len(),
            forall|j: int| 0 <= j < i ==> lower(bytes[j]) == wanted[j],
        decreases bytes.len() - i,
    {
        if ascii_lower(bytes[i]) != wanted[i] {
            return false;
        }
        i += 1;
    }
    assert(lowered(bytes@) =~= encode_utf8(name@));
    true
}

/// The character of one decimal digit.
pub open spec fn digit_char(d: int) -> char {
    if d == 0 {
        '0'
    } else if d == 1 {
        '1'
    } else if d == 2 {
        '2'
    } else if d == 3 {
        '3'
    } else if d == 4 {
        '4'
    } else if d == 5 {
        '5'
    } else if d == 6 {
        '6'
    } else if d == 7 {
        '7'
    } else if d == 8 {
        '8'
    } else {
        '9'
    }
}

/// A natural number in decimal, without leading zeros.
pub open spec fn decimal(n: nat) -> Seq<char>
    decreases n,
{
    if n < 10 {
        seq![digit_char(n as int)]
    } else {
        decimal(n / 10).push(digit_char((n % 10) as int))
    }
}

/// The text of one decimal digit.
fn digit_text(d: usize) -> (r: &'static str)
    requires
        d < 10,
    ensures
        r@ == seq![digit_char(d as int)],
{
    proof {
        reveal_strlit("0");
        reveal_strlit("1");
        reveal_strlit("2");
        reveal_strlit("3");
        reveal_strlit("4");
        reveal_strlit("5");
        reveal_strlit("6");
        reveal_strlit("7");
        reveal_strlit("8");
        reveal_strlit("9");
    }
    let r = if d == 0 {
        "0"
    } else if d == 1 {
        "1"
    } else if d == 2 {
        "2"
    } else if d == 3 {
        "3"
    } else if d == 4 {
        "4"
    } else if d == 5 {
        "5"
    } else if d == 6 {
        "6"
    } else if d == 7 {
        "7"
    } else if d == 8 {
        "8"
    } else {
        "9"
    };
    r
}

/// Renders [`decimal`].
pub fn decimal_text(n: usize) -> (r: String)
    ensures
        r@ == decimal(n as nat),
    decreases n,
{
    if n < 10 {
        String::from_str(digit_text(n))
    } else {
        let mut text = decimal_text(n / 10);
        text.append(digit_text(n % 10));
        text
    }
}

} // verus!
