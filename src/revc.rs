//! Reverse complement of a plain DNA string.
use crate::text::{chars_of, push_char};
use vstd::prelude::*;

verus! {

/// The Watson-Crick partner of an upper-case base; other characters stay.
pub open spec fn complement_char(c: char) -> char {
    if c == 'A' {
        'T'
    } else if c == 'C' {
        'G'
    } else if c == 'G' {
        'C'
    } else if c == 'T' {
        'A'
    } else {
        c
    }
}

/// The reverse complement of `s`: read backwards, each base complemented.
pub open spec fn reverse_complement_of(s: Seq<char>) -> Seq<char> {
    Seq::new(s.len(), |i: int| complement_char(s[s.len() - 1 - i]))
}

/// Reverses `input` and complements each upper-case base.
pub fn reverse_complement(input: &str) -> (r: String)
    ensures
        r@ == reverse_complement_of(input@),
{
    let chars = chars_of(input);
    let n = chars.len();
    let mut out = String::new();
    let mut i: usize = 0;
    while i < n
        invariant
            i <= n == chars@.len(),
            chars@ == input@,
            out@ == reverse_complement_of(chars@).subrange(0, i as int),
        decreases n - i,
    {
        let c = chars[n - 1 - i];
        let d = match c {
            'A' => 'T',
            'C' => 'G',
            'G' => 'C',
            'T' => 'A',
            _ => c,
        };
        assert(reverse_complement_of(chars@).subrange(0, i + 1) =~= reverse_complement_of(
            chars@,
        ).subrange(0, i as int).push(d));
        push_char(&mut out, d);
        i = i + 1;
    }
    assert(reverse_complement_of(chars@).subrange(0, i as int) =~= reverse_complement_of(chars@));
    out
}

} // verus!
