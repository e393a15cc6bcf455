//! Translation of an RNA or DNA string into a protein string.
use crate::seq::codon::{codon_of_chars, translate_codon, Codon};
use crate::seq::nuc::DNA;
use crate::seq::translation::ncbi_translation_tables::{standard, standard_code};
use crate::seq::translation::{char_of_amino, TranslatedCodon};
use crate::text::{chars_of, push_char};
use vstd::prelude::*;

verus! {

/// The base a character stands for: `U` reads as `T`, case is ignored, and
/// anything else is `N`.
pub open spec fn base_letter(c: char) -> char {
    if c == 'U' || c == 'u' || c == 'T' || c == 't' {
        'T'
    } else if c == 'A' || c == 'a' {
        'A'
    } else if c == 'G' || c == 'g' {
        'G'
    } else if c == 'C' || c == 'c' {
        'C'
    } else {
        'N'
    }
}

/// What the `i`-th complete codon of `s` translates to under the standard code.
pub open spec fn codon_amino(s: Seq<char>, i: int) -> TranslatedCodon {
    translate_codon(
        codon_of_chars(base_letter(s[3 * i]), base_letter(s[3 * i + 1]), base_letter(s[3 * i + 2])),
        standard_code(),
    )
}

/// The protein letters of the first `n` codons of `s`, stops left out.
pub open spec fn protein_prefix(s: Seq<char>, n: nat) -> Seq<char>
    decreases n,
{
    if n == 0 {
        Seq::empty()
    } else {
        let prev = protein_prefix(s, (n - 1) as nat);
        let aa = codon_amino(s, n - 1);
        if aa == TranslatedCodon::Stop {
            prev
        } else {
            prev.push(char_of_amino(aa))
        }
    }
}

/// The protein that `s` encodes: its complete codons read under the standard
/// code, stop codons dropped and an incomplete trailing codon ignored.
pub open spec fn protein_of(s: Seq<char>) -> Seq<char> {
    protein_prefix(s, s.len() / 3)
}

fn base_letter_of(c: char) -> (r: char)
    ensures
        r == base_letter(c),
{
    match c {
        'U' | 'u' | 'T' | 't' => 'T',
        'A' | 'a' => 'A',
        'G' | 'g' => 'G',
        'C' | 'c' => 'C',
        _ => 'N',
    }
}

/// Translates `input` into protein letters with the standard genetic code.
pub fn translate(input: &String) -> (r: String)
    ensures
        r@ == protein_of(input@),
{
    let chars = chars_of(input.as_str());
    let table = standard();
    let ncodons = chars.len() / 3;
    let mut out = String::new();
    let mut i: usize = 0;
    while i < ncodons
        invariant
            i <= ncodons == chars@.len() / 3,
            chars@ == input@,
            table@ == standard_code(),
            out@ == protein_prefix(chars@, i as nat),
        decreases ncodons - i,
    {
        assert(3 * i + 2 < chars@.len()) by (nonlinear_arith)
            requires
                i < ncodons,
                ncodons == chars@.len() / 3,
        ;
        let b = 3 * i;
        let codon = Codon(
            DNA::from_char(base_letter_of(chars[b])),
            DNA::from_char(base_letter_of(chars[b + 1])),
            DNA::from_char(base_letter_of(chars[b + 2])),
        );
        let aa = codon.translate(&table);
        if aa != TranslatedCodon::Stop {
            push_char(&mut out, aa.to_char());
        }
        i = i + 1;
    }
    out
}

} // verus!
