//! Transcription of DNA into RNA.
use crate::text::{chars_of, push_char};
use vstd::prelude::*;

verus! {

/// The RNA letter for a DNA letter: `T` becomes `U` (keeping case); every
/// other character stays.
pub open spec fn rna_char(c: char) -> char {
    if c == 'T' {
        'U'
    } else if c == 't' {
        'u'
    } else {
        c
    }
}

/// Replaces every `T` by `U` and every `t` by `u`.
pub fn translate(input: &str) -> (r: String)
    ensures
        r@ == input@.map_values(|c: char| rna_char(c)),
{
    let chars = chars_of(input);
    let mut out = String::new();
    let mut i: usize = 0;
    while i < chars.len()
        invariant
            i <= chars@.len(),
            chars@ == input@,
            out@ == chars@.subrange(0, i as int).map_values(|c: char| rna_char(c)),
        decreases chars.len() - i,
    {
        let c = chars[i];
        let d = if c == 'T' {
            'U'
        } else if c == 't' {
            'u'
        } else {
            c
        };
        assert(chars@.subrange(0, i + 1).map_values(|c: char| rna_char(c)) =~= chars@.subrange(
            0,
            i as int,
        ).map_values(|c: char| rna_char(c)).push(d));
        push_char(&mut out, d);
        i = i + 1;
    }
    assert(chars@.subrange(0, i as int) =~= chars@);
    out
}

} // verus!
