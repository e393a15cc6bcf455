//! Amino-acid symbols and 64-entry codon translation tables.
use vstd::prelude::*;

pub mod ncbi_translation_tables;

verus! {

/// What a codon translates to: one of the twenty amino acids, the unknown
/// amino acid `X`, or the stop marker.
#[derive(Debug, Clone, Copy, PartialEq, Eq, Structural)]
pub enum TranslatedCodon {
    /// Alanine
    A,
    /// Cysteine
    C,
    /// Aspartic acid
    D,
    /// Glutamic acid
    E,
    /// Phenylalanine
    F,
    /// Glycine
    G,
    /// Histidine
    H,
    /// Isoleucine
    I,
    /// Lysine
    K,
    /// Leucine
    L,
    /// Methionine
    M,
    /// Asparagine
    N,
    /// Proline
    P,
    /// Glutamine
    Q,
    /// Arginine
    R,
    /// Serine
    S,
    /// Threonine
    T,
    /// Valine
    V,
    /// Tryptophan
    W,
    /// Tyrosine
    Y,
    /// Any amino acid
    X,
    /// Terminator
    Stop,
}

/// The symbol named by a one-letter code; `*` is the stop marker and an
/// unrecognised letter is the unknown amino acid.
pub open spec fn amino_of_char(c: char) -> TranslatedCodon {
    if c == 'A' {
        TranslatedCodon::A
    } else if c == 'C' {
        TranslatedCodon::C
    } else if c == 'D' {
        TranslatedCodon::D
    } else if c == 'E' {
        TranslatedCodon::E
    } else if c == 'F' {
        TranslatedCodon::F
    } else if c == 'G' {
        TranslatedCodon::G
    } else if c == 'H' {
        TranslatedCodon::H
    } else if c == 'I' {
        TranslatedCodon::I
    } else if c == 'K' {
        TranslatedCodon::K
    } else if c == 'L' {
        TranslatedCodon::L
    } else if c == 'M' {
        TranslatedCodon::M
    } else if c == 'N' {
        TranslatedCodon::N
    } else if c == 'P' {
        TranslatedCodon::P
    } else if c == 'Q' {
        TranslatedCodon::Q
    } else if c == 'R' {
        TranslatedCodon::R
    } else if c == 'S' {
        TranslatedCodon::S
    } else if c == 'T' {
        TranslatedCodon::T
    } else if c == 'V' {
        TranslatedCodon::V
    } else if c == 'W' {
        TranslatedCodon::W
    } else if c == 'Y' {
        TranslatedCodon::Y
    } else if c == '*' {
        TranslatedCodon::Stop
    } else {
        TranslatedCodon::X
    }
}

/// The one-letter code of a symbol (`*` for the stop marker).
pub open spec fn char_of_amino(a: TranslatedCodon) -> char {
    match a {
        TranslatedCodon::A => 'A',
        TranslatedCodon::C => 'C',
        TranslatedCodon::D => 'D',
        TranslatedCodon::E => 'E',
        TranslatedCodon::F => 'F',
        TranslatedCodon::G => 'G',
        TranslatedCodon::H => 'H',
        TranslatedCodon::I => 'I',
        TranslatedCodon::K => 'K',
        TranslatedCodon::L => 'L',
        TranslatedCodon::M => 'M',
        TranslatedCodon::N => 'N',
        TranslatedCodon::P => 'P',
        TranslatedCodon::Q => 'Q',
        TranslatedCodon::R => 'R',
        TranslatedCodon::S => 'S',
        TranslatedCodon::T => 'T',
        TranslatedCodon::V => 'V',
        TranslatedCodon::W => 'W',
        TranslatedCodon::Y => 'Y',
        TranslatedCodon::X => 'X',
        TranslatedCodon::Stop => '*',
    }
}

impl TranslatedCodon {
    /// Reads a one-letter code.
    pub fn from_char(c: char) -> (r: TranslatedCodon)
        ensures
            r == amino_of_char(c),
    {
        match c {
            'A' => TranslatedCodon::A,
            'C' => TranslatedCodon::C,
            'D' => TranslatedCodon::D,
            'E' => TranslatedCodon::E,
            'F' => TranslatedCodon::F,
            'G' => TranslatedCodon::G,
            'H' => TranslatedCodon::H,
            'I' => TranslatedCodon::I,
            'K' => TranslatedCodon::K,
            'L' => TranslatedCodon::L,
            'M' => TranslatedCodon::M,
            'N' => TranslatedCodon::N,
            'P' => TranslatedCodon::P,
            'Q' => TranslatedCodon::Q,
            'R' => TranslatedCodon::R,
            'S' => TranslatedCodon::S,
            'T' => TranslatedCodon::T,
            'V' => TranslatedCodon::V,
            'W' => TranslatedCodon::W,
            'Y' => TranslatedCodon::Y,
            '*' => TranslatedCodon::Stop,
            _ => TranslatedCodon::X,
        }
    }

    /// The one-letter code of the symbol.
    pub fn to_char(self) -> (r: char)
        ensures
            r == char_of_amino(self),
    {
        match self {
            TranslatedCodon::A => 'A',
            TranslatedCodon::C => 'C',
            TranslatedCodon::D => 'D',
            TranslatedCodon::E => 'E',
            TranslatedCodon::F => 'F',
            TranslatedCodon::G => 'G',
            TranslatedCodon::H => 'H',
            TranslatedCodon::I => 'I',
            TranslatedCodon::K => 'K',
            TranslatedCodon::L => 'L',
            TranslatedCodon::M => 'M',
            TranslatedCodon::N => 'N',
            TranslatedCodon::P => 'P',
            TranslatedCodon::Q => 'Q',
            TranslatedCodon::R => 'R',
            TranslatedCodon::S => 'S',
            TranslatedCodon::T => 'T',
            TranslatedCodon::V => 'V',
            TranslatedCodon::W => 'W',
            TranslatedCodon::Y => 'Y',
            TranslatedCodon::X => 'X',
            TranslatedCodon::Stop => '*',
        }
    }
}

/// Reading back the code of any symbol gives the symbol.
pub proof fn lemma_amino_char_round_trip(a: TranslatedCodon)
    ensures
        amino_of_char(char_of_amino(a)) == a,
{
}

impl From<char> for TranslatedCodon {
    fn from(c: char) -> (r: TranslatedCodon) {
        TranslatedCodon::from_char(c)
    }
}

impl vstd::std_specs::convert::FromSpecImpl<char> for TranslatedCodon {
    open spec fn obeys_from_spec() -> bool {
        true
    }

    open spec fn from_spec(v: char) -> TranslatedCodon {
        amino_of_char(v)
    }
}

impl From<TranslatedCodon> for char {
    fn from(codon: TranslatedCodon) -> (r: char) {
        codon.to_char()
    }
}

impl vstd::std_specs::convert::FromSpecImpl<TranslatedCodon> for char {
    open spec fn obeys_from_spec() -> bool {
        true
    }

    open spec fn from_spec(v: TranslatedCodon) -> char {
        char_of_amino(v)
    }
}

impl Default for TranslatedCodon {
    /// The unknown amino acid.
    fn default() -> (r: TranslatedCodon)
        ensures
            r == TranslatedCodon::X,
    {
        TranslatedCodon::X
    }
}

/// A translation table: the symbol for each of the 64 codon indices.
pub struct TranslationTable([TranslatedCodon; 64]);

impl View for TranslationTable {
    type V = Seq<TranslatedCodon>;

    closed spec fn view(&self) -> Seq<TranslatedCodon> {
        self.0@
    }
}

/// The table lookup: an index outside the table gives the unknown amino acid.
pub open spec fn table_get(table: Seq<TranslatedCodon>, idx: int) -> TranslatedCodon {
    if 0 <= idx < table.len() {
        table[idx]
    } else {
        TranslatedCodon::X
    }
}

impl TranslationTable {
    /// Builds a table from 64 one-letter codes (`*` for stop); an
    /// unrecognised letter becomes the unknown amino acid.
    pub fn new(amino_acids: [char; 64]) -> (r: TranslationTable)
        ensures
            r@.len() == 64,
            forall|i: int| 0 <= i < 64 ==> #[trigger] r@[i] == amino_of_char(amino_acids@[i]),
    {
        let mut symbols = [TranslatedCodon::X; 64];
        for i in 0..64usize
            invariant
                symbols@.len() == 64,
                forall|j: int| 0 <= j < i ==> #[trigger] symbols@[j] == amino_of_char(amino_acids@[j]),
        {
            symbols[i] = TranslatedCodon::from_char(amino_acids[i]);
        }
        TranslationTable(symbols)
    }

    /// Wraps 64 symbols as a table.
    pub fn from_symbols(symbols: [TranslatedCodon; 64]) -> (r: TranslationTable)
        ensures
            r@ == symbols@,
    {
        TranslationTable(symbols)
    }

    /// The symbol at `idx`, or the unknown amino acid when `idx` is not below 64.
    pub fn get(&self, idx: usize) -> (r: TranslatedCodon)
        ensures
            r == table_get(self@, idx as int),
    {
        if idx < 64 {
            self.0[idx]
        } else {
            TranslatedCodon::default()
        }
    }
}

} // verus!
