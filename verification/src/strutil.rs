//! Small verified string helpers shared by the path and argument builders:
//! appending one character, prefix tests, equality on string slices, and
//! rendering integers in decimal.

use vstd::prelude::*;

verus! {

/// Relies on `String::push`: appends exactly one character to the string.
#[verifier::external_body]
pub(crate) fn push_char(s: &mut String, c: char)
    ensures
        final(s)@ == old(s)@.push(c),
{
    s.push(c);
}

/// Whether `p` is a prefix of `s`, decided character by character.
pub fn str_starts_with(s: &str, p: &str) -> (r: bool)
    ensures
        r == p@.is_prefix_of(s@),
{
    let n = p.unicode_len();
    let m = s.unicode_len();
    if n > m {
        assert(!p@.is_prefix_of(s@));
        return false;
    }
    let mut i: usize = 0;
    while i < n
        invariant
            i <= n,
            n == p@.len(),
            n <= m == s@.len(),
            forall|j: int| 0 <= j < i ==> s@[j] == p@[j],
        decreases n - i,
    {
        if s.get_char(i) != p.get_char(i) {
            assert(!p@.is_prefix_of(s@));
            return false;
        }
        i += 1;
    }
    assert(p@ =~= s@.subrange(0, n as int));
    true
}

/// Equality of two string slices, decided character by character.
pub fn str_eq(a: &str, b: &str) -> (r: bool)
    ensures
        r == (a@ == b@),
{
    let n = a.unicode_len();
    if n != b.unicode_len() {
        return false;
    }
    let mut i: usize = 0;
    while i < n
        invariant
            i <= n,
            n == a@.len() == b@.len(),
            forall|j: int| 0 <= j < i ==> a@[j] == b@[j],
        decreases n - i,
    {
        if a.get_char(i) != b.get_char(i) {
            return false;
        }
        i += 1;
    }
    assert(a@ =~= b@);
    true
}

/// The character for one decimal digit.
pub open spec fn dec_digit(d: int) -> char {
    if d == 0 {
        '0'
    } else if d == 1 {
        '1'
    } else if d == 2 {
        '2'
    } else if d == 3 {
        '3'
    } else if d == 4 {
        '4'
    } else if d == 5 {
        '5'
    } else if d == 6 {
        '6'
    } else if d == 7 {
        '7'
    } else if d == 8 {
        '8'
    } else {
        '9'
    }
}

/// The decimal rendering of a natural number, most significant digit first,
/// without leading zeros (a single `'0'` for zero).
pub open spec fn dec_rep(n: nat) -> Seq<char>
    decreases n,
{
    if n < 10 {
        seq![dec_digit(n as int)]
    } else {
        dec_rep(n / 10).push(dec_digit((n % 10) as int))
    }
}

fn digit_char(d: u64) -> (c: char)
    requires
        d < 10,
    ensures
        c == dec_digit(d as int),
{
    if d == 0 {
        '0'
    } else if d == 1 {
        '1'
    } else if d == 2 {
        '2'
    } else if d == 3 {
        '3'
    } else if d == 4 {
        '4'
    } else if d == 5 {
        '5'
    } else if d == 6 {
        '6'
    } else if d == 7 {
        '7'
    } else if d == 8 {
        '8'
    } else {
        '9'
    }
}

/// Renders `n` in decimal.
pub fn u64_to_dec(n: u64) -> (r: String)
    ensures
        r@ == dec_rep(n as nat),
    decreases n,
{
    if n < 10 {
        let mut s = String::new();
        push_char(&mut s, digit_char(n));
        assert(s@ =~= dec_rep(n as nat));
        s
    } else {
        let mut s = u64_to_dec(n / 10);
        push_char(&mut s, digit_char(n % 10));
        s
    }
}

/// Renders `n` in decimal.
pub fn u32_to_dec(n: u32) -> (r: String)
    ensures
        r@ == dec_rep(n as nat),
{
    u64_to_dec(n as u64)
}

/// The character for one hexadecimal digit, lower case.
pub open spec fn hex_digit(d: int) -> char {
    if d < 10 {
        dec_digit(d)
    } else if d == 10 {
        'a'
    } else if d == 11 {
        'b'
    } else if d == 12 {
        'c'
    } else if d == 13 {
        'd'
    } else if d == 14 {
        'e'
    } else {
        'f'
    }
}

/// The hexadecimal rendering of a natural number, most significant digit
/// first, without leading zeros (a single `'0'` for zero).
pub open spec fn hex_rep(n: nat) -> Seq<char>
    decreases n,
{
    if n < 16 {
        seq![hex_digit(n as int)]
    } else {
        hex_rep(n / 16).push(hex_digit((n % 16) as int))
    }
}

fn hex_digit_char(d: u32) -> (c: char)
    requires
        d < 16,
    ensures
        c == hex_digit(d as int),
{
    if d < 10 {
        digit_char(d as u64)
    } else if d == 10 {
        'a'
    } else if d == 11 {
        'b'
    } else if d == 12 {
        'c'
    } else if d == 13 {
        'd'
    } else if d == 14 {
        'e'
    } else {
        'f'
    }
}

/// Renders `n` in lower-case hexadecimal.
pub fn u32_to_hex(n: u32) -> (r: String)
    ensures
        r@ == hex_rep(n as nat),
    decreases n,
{
    if n < 16 {
        let mut s = String::new();
        push_char(&mut s, hex_digit_char(n));
        assert(s@ =~= hex_rep(n as nat));
        s
    } else {
        let mut s = u32_to_hex(n / 16);
        push_char(&mut s, hex_digit_char(n % 16));
        s
    }
}

} // verus!
