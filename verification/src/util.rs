//! Text helpers for key-name formatting.

use vstd::prelude::*;

verus! {

/// True when `c` is an ASCII uppercase letter.
pub open spec fn is_ascii_upper(c: char) -> bool {
    65 <= c as u32 <= 90
}

/// The ASCII lowercase counterpart of `c`; any character that is not an
/// ASCII uppercase letter is left unchanged.
pub open spec fn lower_char(c: char) -> char {
    match c {
        'A' => 'a',
        'B' => 'b',
        'C' => 'c',
        'D' => 'd',
        'E' => 'e',
        'F' => 'f',
        'G' => 'g',
        'H' => 'h',
        'I' => 'i',
        'J' => 'j',
        'K' => 'k',
        'L' => 'l',
        'M' => 'm',
        'N' => 'n',
        'O' => 'o',
        'P' => 'p',
        'Q' => 'q',
        'R' => 'r',
        'S' => 's',
        'T' => 't',
        'U' => 'u',
        'V' => 'v',
        'W' => 'w',
        'X' => 'x',
        'Y' => 'y',
        'Z' => 'z',
        _ => c,
    }
}

/// The kebab-case rendering of `s`: every character is lowercased, and a
/// hyphen is inserted exactly at each boundary from a non-uppercase
/// character to an uppercase one. No hyphen is ever inserted before the
/// first character.
pub open spec fn kebab_seq(s: Seq<char>) -> Seq<char>
    decreases s.len(),
{
    if s.len() == 0 {
        Seq::empty()
    } else {
        let rest = kebab_seq(s.drop_last());
        if s.len() > 1 && !is_ascii_upper(s[s.len() - 2]) && is_ascii_upper(s.last()) {
            rest + seq!['-', lower_char(s.last())]
        } else {
            rest + seq![lower_char(s.last())]
        }
    }
}

/// Lowercase `c` if it is an ASCII uppercase letter.
fn lower_char_of(c: char) -> (r: char)
    ensures
        r == lower_char(c),
{
    match c {
        'A' => 'a',
        'B' => 'b',
        'C' => 'c',
        'D' => 'd',
        'E' => 'e',
        'F' => 'f',
        'G' => 'g',
        'H' => 'h',
        'I' => 'i',
        'J' => 'j',
        'K' => 'k',
        'L' => 'l',
        'M' => 'm',
        'N' => 'n',
        'O' => 'o',
        'P' => 'p',
        'Q' => 'q',
        'R' => 'r',
        'S' => 's',
        'T' => 't',
        'U' => 'u',
        'V' => 'v',
        'W' => 'w',
        'X' => 'x',
        'Y' => 'y',
        'Z' => 'z',
        _ => c,
    }
}

fn is_upper_of(c: char) -> (r: bool)
    ensures
        r == is_ascii_upper(c),
{
    let u = c as u32;
    65 <= u && u <= 90
}

/// Relies on `String::push`: appends exactly the given character to the end
/// of the string.
#[verifier::external_body]
pub(crate) fn push_char(s: &mut String, c: char)
    ensures
        final(s)@ == old(s)@.push(c),
{
    s.push(c);
}

/// Turn a CamelCase tag into its lowercase hyphenated form: a hyphen goes
/// in at each boundary from a non-uppercase character to an uppercase one,
/// never before the first character, and the result is all lowercase.
pub fn to_kebab_case(s: String) -> (r: String)
    ensures
        r@ == kebab_seq(s@),
{
    let mut out = String::new();
    let n = s.as_str().unicode_len();
    let mut i: usize = 0;
    while i < n
        invariant
            n == s@.len(),
            i <= n,
            out@ == kebab_seq(s@.take(i as int)),
        decreases n - i,
    {
        let c = s.as_str().get_char(i);
        if i > 0 && is_upper_of(c) {
            let prev = s.as_str().get_char(i - 1);
            if !is_upper_of(prev) {
                push_char(&mut out, '-');
            }
        }
        push_char(&mut out, lower_char_of(c));
        proof {
            let t = s@.take(i + 1 as int);
            assert(t.drop_last() =~= s@.take(i as int));
            assert(t.last() == s@[i as int]);
            if i > 0 {
                assert(t[t.len() - 2] == s@[i - 1 as int]);
            }
            if i + 1 > 1 && !is_ascii_upper(t[t.len() - 2]) && is_ascii_upper(t.last()) {
                assert(kebab_seq(t) =~= kebab_seq(s@.take(i as int)).push('-').push(
                    lower_char(s@[i as int]),
                ));
            } else {
                assert(kebab_seq(t) =~= kebab_seq(s@.take(i as int)).push(
                    lower_char(s@[i as int]),
                ));
            }
        }
        i = i + 1;
    }
    proof {
        assert(s@.take(n as int) =~= s@);
    }
    out
}

} // verus!
