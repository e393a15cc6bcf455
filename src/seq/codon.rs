//! Codons: ordered triples of nucleotides, and their place in a translation table.
use super::nuc::{symbol_of_char, DNA};
use super::translation::{table_get, TranslatedCodon, TranslationTable};
use vstd::prelude::*;

verus! {

/// Three nucleotides read as one translation unit.
#[derive(Debug, Clone, Copy, PartialEq, Eq, Structural)]
pub struct Codon(pub DNA, pub DNA, pub DNA);

/// The rank of an unambiguous base in the table order T < C < A < G; other
/// symbols have none.
pub open spec fn base_rank(d: DNA) -> Option<int> {
    match d {
        DNA::T => Some(0),
        DNA::C => Some(1),
        DNA::A => Some(2),
        DNA::G => Some(3),
        _ => None,
    }
}

/// The table index of a codon: its three ranks read as a base-4 numeral, or
/// none when one of its symbols is not a base.
pub open spec fn codon_index(c: Codon) -> Option<int> {
    match (base_rank(c.0), base_rank(c.1), base_rank(c.2)) {
        (Some(a), Some(b), Some(x)) => Some(16 * a + 4 * b + x),
        _ => None,
    }
}

/// What a codon translates to under a table: the entry at its index, or the
/// unknown amino acid when it has none.
pub open spec fn translate_codon(c: Codon, table: Seq<TranslatedCodon>) -> TranslatedCodon {
    match codon_index(c) {
        Some(i) => table_get(table, i),
        None => TranslatedCodon::X,
    }
}

/// The codon read from three characters.
pub open spec fn codon_of_chars(a: char, b: char, c: char) -> Codon {
    Codon(symbol_of_char(a), symbol_of_char(b), symbol_of_char(c))
}

fn base_rank_of(d: DNA) -> (r: Option<usize>)
    ensures
        match base_rank(d) {
            Some(k) => r == Some(k as usize),
            None => r is None,
        },
        r matches Some(k) ==> k < 4,
{
    match d {
        DNA::T => Some(0),
        DNA::C => Some(1),
        DNA::A => Some(2),
        DNA::G => Some(3),
        _ => None,
    }
}

impl Codon {
    /// The index of the codon in a translation table, in `[0, 64)`, or `None`
    /// when one of its symbols is ambiguous or a gap.
    pub fn get_translation_index(&self) -> (r: Option<usize>)
        ensures
            match codon_index(*self) {
                Some(i) => r == Some(i as usize),
                None => r is None,
            },
            r matches Some(i) ==> i < 64,
    {
        match (base_rank_of(self.0), base_rank_of(self.1), base_rank_of(self.2)) {
            (Some(a), Some(b), Some(c)) => Some(16 * a + 4 * b + c),
            _ => None,
        }
    }

    /// Looks the codon up in `table`; a codon without an index gives the
    /// unknown amino acid.
    pub fn translate(&self, table: &TranslationTable) -> (r: TranslatedCodon)
        ensures
            r == translate_codon(*self, table@),
    {
        match self.get_translation_index() {
            Some(idx) => table.get(idx),
            None => TranslatedCodon::X,
        }
    }
}

impl<'a> TryFrom<&'a [char]> for Codon {
    type Error = ();

    /// Reads exactly three characters as a codon; any other count is refused.
    fn try_from(value: &'a [char]) -> (r: Result<Codon, ()>) {
        if value.len() == 3 {
            Ok(Codon(DNA::from_char(value[0]), DNA::from_char(value[1]), DNA::from_char(value[2])))
        } else {
            Err(())
        }
    }
}

impl<'a> vstd::std_specs::convert::TryFromSpecImpl<&'a [char]> for Codon {
    open spec fn obeys_try_from_spec() -> bool {
        true
    }

    open spec fn try_from_spec(v: &'a [char]) -> Result<Codon, ()> {
        if v@.len() == 3 {
            Ok(codon_of_chars(v@[0], v@[1], v@[2]))
        } else {
            Err(())
        }
    }
}

} // verus!
