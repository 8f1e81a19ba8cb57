//! Small string helpers shared by the composer modules.

use vstd::prelude::*;

verus! {

/// Relies on `<str as PartialEq>::eq`: two string slices are equal
/// exactly when they consist of the same characters.
#[verifier::external_body]
pub fn str_eq(a: &str, b: &str) -> (r: bool)
    ensures
        r == (a@ == b@),
{
    a == b
}

/// Relies on `String::push_str`: appends the given slice onto the end
/// of the string.
#[verifier::external_body]
pub fn push_str(s: &mut String, t: &str)
    ensures
        final(s)@ == old(s)@ + t@,
{
    s.push_str(t)
}

/// Relies on `String::push`: appends the given character onto the end
/// of the string.
#[verifier::external_body]
pub fn push_char(s: &mut String, c: char)
    ensures
        final(s)@ == old(s)@.push(c),
{
    s.push(c)
}

/// The ASCII-uppercase image of a character; everything outside
/// `'a'..='z'` is left alone.
pub open spec fn upper_char(c: char) -> char {
    if 'a' <= c && c <= 'z' {
        ((c as u32) - 32) as char
    } else {
        c
    }
}

/// The ASCII-uppercase image of a character sequence.
pub open spec fn upper_seq(s: Seq<char>) -> Seq<char> {
    s.map_values(|c: char| upper_char(c))
}

fn upper_char_exec(c: char) -> (r: char)
    ensures
        r == upper_char(c),
{
    match c {
        'a' => 'A',
        'b' => 'B',
        'c' => 'C',
        'd' => 'D',
        'e' => 'E',
        'f' => 'F',
        'g' => 'G',
        'h' => 'H',
        'i' => 'I',
        'j' => 'J',
        'k' => 'K',
        'l' => 'L',
        'm' => 'M',
        'n' => 'N',
        'o' => 'O',
        'p' => 'P',
        'q' => 'Q',
        'r' => 'R',
        's' => 'S',
        't' => 'T',
        'u' => 'U',
        'v' => 'V',
        'w' => 'W',
        'x' => 'X',
        'y' => 'Y',
        'z' => 'Z',
        _ => c,
    }
}

/// ASCII-uppercases a string, leaving every character outside
/// `'a'..='z'` unchanged.
pub fn ascii_upper(s: &str) -> (r: String)
    ensures
        r@ == upper_seq(s@),
{
    let mut out = String::new();
    let n = s.unicode_len();
    for i in 0..n
        invariant
            n == s@.len(),
            out@ == upper_seq(s@.take(i as int)),
    {
        let c = s.get_char(i);
        let u = upper_char_exec(c);
        push_char(&mut out, u);
        proof {
            assert(upper_seq(s@.take(i + 1)) == upper_seq(s@.take(i as int)).push(upper_char(c)));
        }
    }
    proof {
        assert(s@.take(n as int) == s@);
    }
    out
}

} // verus!
