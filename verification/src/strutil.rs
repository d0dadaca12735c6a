//! Small text-building helpers shared by the whole library: appending to a
//! `String`, turning a `&str` into a vector of its characters, and rendering
//! integers in decimal and fixed-width hexadecimal.

use vstd::prelude::*;

verus! {

use vstd::std_specs::iter::IteratorSpec;

/// Relies on `String::push`: appends one character at the end of the string.
#[verifier::external_body]
pub(crate) fn push_char(s: &mut String, c: char)
    ensures
        final(s)@ == old(s)@.push(c),
{
    s.push(c)
}

/// Relies on `String::push_str`: appends the characters of `t` at the end.
#[verifier::external_body]
pub(crate) fn push_str(s: &mut String, t: &str)
    ensures
        final(s)@ == old(s)@ + t@,
{
    s.push_str(t)
}

/// The characters of a string, as a vector.
pub fn chars_vec(s: &str) -> (r: Vec<char>)
    ensures
        r@ == s@,
{
    broadcast use vstd::string::axiom_spec_iter, vstd::string::next_postcondition;

    let mut it = s.chars();
    let mut v: Vec<char> = Vec::new();
    loop
        invariant
            it.obeys_prophetic_iter_laws(),
            it.decrease() is Some,
            v@ + it.remaining() == s@,
        decreases it.decrease()->0,
    {
        match it.next() {
            Some(c) => {
                v.push(c);
            },
            None => {
                proof {
                    assert(it.remaining().len() == 0);
                    assert(v@ =~= s@);
                }
                return v;
            },
        }
    }
}

/// A string made of the given characters.
pub fn chars_to_string(cs: &Vec<char>) -> (r: String)
    ensures
        r@ == cs@,
{
    let mut s = String::new();
    let mut i: usize = 0;
    while i < cs.len()
        invariant
            i <= cs@.len(),
            s@ == cs@.take(i as int),
        decreases cs@.len() - i,
    {
        push_char(&mut s, cs[i]);
        proof {
            assert(s@ =~= cs@.take(i + 1));
        }
        i = i + 1;
    }
    proof {
        assert(s@ =~= cs@);
    }
    s
}

/// Two string slices hold the same characters.
pub fn str_eq(a: &str, b: &str) -> (r: bool)
    ensures
        r == (a@ == b@),
{
    let sa: String = a.to_owned();
    let sb: String = b.to_owned();
    sa == sb
}

/// A string made of a range of the given characters.
pub fn chars_range_to_string(cs: &Vec<char>, start: usize, end: usize) -> (r: String)
    requires
        start <= end <= cs@.len(),
    ensures
        r@ == cs@.subrange(start as int, end as int),
{
    let mut s = String::new();
    let mut i: usize = start;
    while i < end
        invariant
            start <= i <= end <= cs@.len(),
            s@ == cs@.subrange(start as int, i as int),
        decreases end - i,
    {
        push_char(&mut s, cs[i]);
        proof {
            assert(s@ =~= cs@.subrange(start as int, i + 1));
        }
        i = i + 1;
    }
    s
}

/// A whitespace character, as the Unicode `White_Space` property has it.
pub open spec fn spec_is_ws(c: char) -> bool {
    ||| c == ' '
    ||| c == '\t'
    ||| c == '\n'
    ||| c == '\r'
    ||| c == '\u{0B}'
    ||| c == '\u{0C}'
    ||| c == '\u{85}'
    ||| c == '\u{A0}'
    ||| c == '\u{1680}'
    ||| ('\u{2000}' <= c && c <= '\u{200A}')
    ||| c == '\u{2028}'
    ||| c == '\u{2029}'
    ||| c == '\u{202F}'
    ||| c == '\u{205F}'
    ||| c == '\u{3000}'
}

/// Whether a character is whitespace.
pub fn is_ws_char(c: char) -> (r: bool)
    ensures
        r == spec_is_ws(c),
{
    c == ' ' || c == '\t' || c == '\n' || c == '\r' || c == '\u{0B}' || c == '\u{0C}'
        || c == '\u{85}' || c == '\u{A0}' || c == '\u{1680}' || ('\u{2000}' <= c && c
        <= '\u{200A}') || c == '\u{2028}' || c == '\u{2029}' || c == '\u{202F}' || c == '\u{205F}'
        || c == '\u{3000}'
}

/// The first position at or after `from` holding a non-whitespace character,
/// or the length when only whitespace remains.
pub open spec fn spec_skip_ws(s: Seq<char>, from: int) -> int
    decreases s.len() - from,
{
    if from < 0 || from >= s.len() {
        from
    } else if spec_is_ws(s[from]) {
        spec_skip_ws(s, from + 1)
    } else {
        from
    }
}

/// Skips whitespace from a position on.
pub fn skip_ws(cs: &Vec<char>, from: usize) -> (r: usize)
    requires
        from <= cs@.len(),
    ensures
        r == spec_skip_ws(cs@, from as int),
        from <= r <= cs@.len(),
        r < cs@.len() ==> !spec_is_ws(cs@[r as int]),
{
    let mut i: usize = from;
    loop
        invariant
            from <= i <= cs@.len(),
            spec_skip_ws(cs@, from as int) == spec_skip_ws(cs@, i as int),
        ensures
            i == spec_skip_ws(cs@, from as int),
            i <= cs@.len(),
            i < cs@.len() ==> !spec_is_ws(cs@[i as int]),
        decreases cs@.len() - i,
    {
        if i == cs.len() {
            break;
        }
        if !is_ws_char(cs[i]) {
            break;
        }
        i = i + 1;
    }
    i
}

/// The first position at or after `from` where the pattern occurs.
pub open spec fn spec_find_at(s: Seq<char>, pat: Seq<char>, from: int) -> Option<int>
    decreases s.len() - from + 1,
{
    if from < 0 || from + pat.len() > s.len() {
        None
    } else if s.subrange(from, from + pat.len()) == pat {
        Some(from)
    } else {
        spec_find_at(s, pat, from + 1)
    }
}

fn seq_match(cs: &Vec<char>, pat: &Vec<char>, at: usize) -> (r: bool)
    requires
        at + pat@.len() <= cs@.len(),
    ensures
        r == (cs@.subrange(at as int, at + pat@.len()) == pat@),
{
    let n = cs.len();
    let mut j: usize = 0;
    while j < pat.len()
        invariant
            j <= pat@.len(),
            at + pat@.len() <= cs@.len(),
            n == cs@.len(),
            forall|t: int| 0 <= t < j ==> cs@[at + t] == pat@[t],
        decreases pat@.len() - j,
    {
        if cs[at + j] != pat[j] {
            proof {
                let sub = cs@.subrange(at as int, at + pat@.len());
                assert(sub[j as int] == cs@[at + j]);
            }
            return false;
        }
        j = j + 1;
    }
    proof {
        assert(cs@.subrange(at as int, at + pat@.len()) =~= pat@);
    }
    true
}

/// Finds the first occurrence of a pattern at or after a position.
pub fn find_at(cs: &Vec<char>, pat: &Vec<char>, from: usize) -> (r: Option<usize>)
    requires
        from <= cs@.len(),
    ensures
        match r {
            Some(i) => spec_find_at(cs@, pat@, from as int) == Some(i as int) && i + pat@.len()
                <= cs@.len(),
            None => spec_find_at(cs@, pat@, from as int) is None,
        },
{
    let n = cs.len();
    let mut i: usize = from;
    loop
        invariant
            from <= i <= n,
            n == cs@.len(),
            spec_find_at(cs@, pat@, from as int) == spec_find_at(cs@, pat@, i as int),
        ensures
            i <= n,
            match (spec_find_at(cs@, pat@, from as int)) {
                Some(f) => i == f && i + pat@.len() <= cs@.len(),
                None => i + pat@.len() > cs@.len(),
            },
        decreases cs@.len() - i,
    {
        if pat.len() > n - i {
            break;
        }
        if seq_match(cs, pat, i) {
            break;
        }
        proof {
            if pat@.len() == 0 {
                assert(cs@.subrange(i as int, i as int) =~= pat@);
            }
        }
        i = i + 1;
    }
    if pat.len() <= n - i {
        Some(i)
    } else {
        None
    }
}

/// The first position at or after `from` holding the character.
pub open spec fn spec_find_char(s: Seq<char>, c: char, from: int) -> Option<int>
    decreases s.len() - from,
{
    if from < 0 || from >= s.len() {
        None
    } else if s[from] == c {
        Some(from)
    } else {
        spec_find_char(s, c, from + 1)
    }
}

/// Finds the first occurrence of a character at or after a position.
pub fn find_char(cs: &Vec<char>, c: char, from: usize) -> (r: Option<usize>)
    requires
        from <= cs@.len(),
    ensures
        match r {
            Some(i) => from <= i && spec_find_char(cs@, c, from as int) == Some(i as int) && i
                < cs@.len(),
            None => spec_find_char(cs@, c, from as int) is None,
        },
{
    let mut i: usize = from;
    loop
        invariant
            from <= i <= cs@.len(),
            spec_find_char(cs@, c, from as int) == spec_find_char(cs@, c, i as int),
        ensures
            match (spec_find_char(cs@, c, from as int)) {
                Some(f) => i == f && i < cs@.len(),
                None => i == cs@.len(),
            },
        decreases cs@.len() - i,
    {
        if i == cs.len() {
            break;
        }
        if cs[i] == c {
            break;
        }
        i = i + 1;
    }
    if i < cs.len() {
        Some(i)
    } else {
        None
    }
}

/// The decimal digit for a value below ten.
pub open spec fn spec_digit_char(n: int) -> char {
    if n == 0 { '0' }
    else if n == 1 { '1' }
    else if n == 2 { '2' }
    else if n == 3 { '3' }
    else if n == 4 { '4' }
    else if n == 5 { '5' }
    else if n == 6 { '6' }
    else if n == 7 { '7' }
    else if n == 8 { '8' }
    else { '9' }
}

fn digit_char(n: u64) -> (r: char)
    requires
        n < 10,
    ensures
        r == spec_digit_char(n as int),
{
    if n == 0 { '0' }
    else if n == 1 { '1' }
    else if n == 2 { '2' }
    else if n == 3 { '3' }
    else if n == 4 { '4' }
    else if n == 5 { '5' }
    else if n == 6 { '6' }
    else if n == 7 { '7' }
    else if n == 8 { '8' }
    else { '9' }
}

/// The decimal rendering of a number, most significant digit first,
/// without leading zeros (the number zero is the single digit `'0'`).
pub open spec fn spec_dec(n: int) -> Seq<char>
    decreases n,
{
    if n < 10 {
        seq![spec_digit_char(n)]
    } else {
        spec_dec(n / 10).push(spec_digit_char(n % 10))
    }
}

/// Renders a number in decimal.
pub fn u64_to_dec(n: u64) -> (r: String)
    ensures
        r@ == spec_dec(n as int),
    decreases n,
{
    if n < 10 {
        let mut s = String::new();
        push_char(&mut s, digit_char(n));
        s
    } else {
        let mut s = u64_to_dec(n / 10);
        push_char(&mut s, digit_char(n % 10));
        s
    }
}

/// The hexadecimal digit for a value below sixteen, in lower case.
pub open spec fn spec_hex_char(n: int) -> char {
    if n < 10 { spec_digit_char(n) }
    else if n == 10 { 'a' }
    else if n == 11 { 'b' }
    else if n == 12 { 'c' }
    else if n == 13 { 'd' }
    else if n == 14 { 'e' }
    else { 'f' }
}

fn hex_char(n: u64) -> (r: char)
    requires
        n < 16,
    ensures
        r == spec_hex_char(n as int),
{
    if n < 10 { digit_char(n) }
    else if n == 10 { 'a' }
    else if n == 11 { 'b' }
    else if n == 12 { 'c' }
    else if n == 13 { 'd' }
    else if n == 14 { 'e' }
    else { 'f' }
}

/// The `i`-th nibble of a 64-bit value, most significant first.
pub open spec fn spec_nibble(h: u64, i: int) -> u64 {
    (h >> ((15 - i) * 4) as u64) & 0xf
}

/// The 16-character, zero-padded, lower-case hexadecimal rendering of a
/// 64-bit value, most significant nibble first.
pub open spec fn spec_hex16(h: u64) -> Seq<char> {
    Seq::new(16, |i: int| spec_hex_char(spec_nibble(h, i) as int))
}

/// Renders a 64-bit value as 16 hexadecimal digits.
pub fn u64_to_hex16(h: u64) -> (r: String)
    ensures
        r@ == spec_hex16(h),
{
    let mut s = String::new();
    let mut i: usize = 0;
    while i < 16
        invariant
            i <= 16,
            s@ == spec_hex16(h).take(i as int),
        decreases 16 - i,
    {
        let shift: u64 = ((15 - i) as u64) * 4;
        let nib: u64 = (h >> shift) & 0xf;
        assert(nib < 16) by (bit_vector)
            requires
                nib == (h >> shift) & 0xf,
        ;
        assert(nib == spec_nibble(h, i as int));
        push_char(&mut s, hex_char(nib));
        proof {
            assert(s@ =~= spec_hex16(h).take(i + 1));
        }
        i = i + 1;
    }
    proof {
        assert(s@ =~= spec_hex16(h));
    }
    s
}

} // verus!
