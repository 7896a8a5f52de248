//! Strings: equality, lower case and decimal numbers.

use vstd::prelude::*;

verus! {

/// What `str::to_lowercase` makes of the characters of a string: its lowercase
/// equivalent, as Unicode defines it.
pub uninterp spec fn lowercase(s: Seq<char>) -> Seq<char>;

/// Whether a character is a capital letter of ASCII.
pub open spec fn is_ascii_capital(c: char) -> bool {
    'A' <= c <= 'Z'
}

/// Whether a string has characters of ASCII only.
pub open spec fn is_ascii(s: Seq<char>) -> bool {
    forall|i: int| 0 <= i < s.len() ==> (#[trigger] s[i]) as u32 <= 127
}

/// A character of ASCII in lower case.
pub open spec fn ascii_lower(c: char) -> char {
    if is_ascii_capital(c) {
        (c as u32 + 32) as char
    } else {
        c
    }
}

/// A string of ASCII in lower case, character by character.
pub open spec fn ascii_lowered(s: Seq<char>) -> Seq<char> {
    s.map_values(|c: char| ascii_lower(c))
}

/// What is in lower case stays as it is.
pub proof fn lemma_ascii_lowered_again(s: Seq<char>)
    ensures
        ascii_lowered(ascii_lowered(s)) == ascii_lowered(s),
{
    assert(ascii_lowered(ascii_lowered(s)) =~= ascii_lowered(s));
}

/// `str::to_lowercase`: the lowercase equivalent of a string, always the same of
/// the same string. No capital letter of ASCII is left in it, and a string of
/// ASCII is lowered character by character. Which characters come out of a
/// string with others is not stated.
#[verifier::external_body]
pub(crate) fn lower(s: &str) -> (res: String)
    ensures
        res@ == lowercase(s@),
        forall|i: int| 0 <= i < res@.len() ==> !is_ascii_capital(#[trigger] res@[i]),
        is_ascii(s@) ==> res@ == ascii_lowered(s@),
{
    s.to_lowercase()
}

/// Whether two strings hold the same characters.
pub(crate) fn same(a: &str, b: &str) -> (res: bool)
    ensures
        res == (a@ == b@),
{
    a.to_owned() == b.to_owned()
}

/// The decimal digit of a number below ten.
pub open spec fn digit(d: nat) -> char
    recommends
        d < 10,
{
    (48 + d) as char
}

/// A number in decimal notation, without leading zeros.
pub open spec fn decimal(n: nat) -> Seq<char>
    decreases n,
{
    if n < 10 {
        seq![digit(n)]
    } else {
        decimal(n / 10).push(digit(n % 10))
    }
}

/// One decimal digit as a string.
fn digit_text(d: u16) -> (res: &'static str)
    requires
        d < 10,
    ensures
        res@ == seq![digit(d as nat)],
{
    proof {
        reveal_strlit("0");
        reveal_strlit("1");
        reveal_strlit("2");
        reveal_strlit("3");
        reveal_strlit("4");
        reveal_strlit("5");
        reveal_strlit("6");
        reveal_strlit("7");
        reveal_strlit("8");
        reveal_strlit("9");
    }
    match d {
        0 => "0",
        1 => "1",
        2 => "2",
        3 => "3",
        4 => "4",
        5 => "5",
        6 => "6",
        7 => "7",
        8 => "8",
        _ => "9",
    }
}

/// A number in decimal notation, as a string.
pub(crate) fn decimal_text(n: u16) -> (res: String)
    ensures
        res@ == decimal(n as nat),
    decreases n,
{
    if n < 10 {
        digit_text(n).to_owned()
    } else {
        let mut res = decimal_text(n / 10);
        let ghost front = res@;
        res.append(digit_text(n % 10));
        assert(res@ =~= front.push(digit((n % 10) as nat)));
        res
    }
}

} // verus!
