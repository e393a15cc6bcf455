//! Four-bit nucleotide alphabet with IUPAC ambiguity codes.
//!
//! Each symbol carries a bit pattern over the bases G, A, C, T (high to low
//! bit). Ambiguity codes are the union of the bases they stand for, so the
//! bitwise operators combine symbols and the complement swaps the A/T pair of
//! bits with the C/G pair.
use std::ops::{BitAnd, BitOr, BitXor};
use vstd::prelude::*;

verus! {

/// A nucleotide symbol. The variants are declared in the order of their bit
/// patterns, so `DNA::A as u8` is the pattern of `A`.
#[derive(Debug, Clone, Copy, PartialEq, Eq, Structural)]
pub enum DNA {
    Gap,
    T,
    C,
    Y,
    A,
    W,
    M,
    H,
    G,
    K,
    S,
    B,
    R,
    D,
    V,
    N,
}

/// The symbol whose pattern is the nibble `n` (`0 <= n < 16`).
pub open spec fn nibble_symbol(n: int) -> DNA {
    if n == 0 {
        DNA::Gap
    } else if n == 1 {
        DNA::T
    } else if n == 2 {
        DNA::C
    } else if n == 3 {
        DNA::Y
    } else if n == 4 {
        DNA::A
    } else if n == 5 {
        DNA::W
    } else if n == 6 {
        DNA::M
    } else if n == 7 {
        DNA::H
    } else if n == 8 {
        DNA::G
    } else if n == 9 {
        DNA::K
    } else if n == 10 {
        DNA::S
    } else if n == 11 {
        DNA::B
    } else if n == 12 {
        DNA::R
    } else if n == 13 {
        DNA::D
    } else if n == 14 {
        DNA::V
    } else {
        DNA::N
    }
}

/// Decoding of a byte: its low four bits name the symbol.
pub open spec fn symbol_of_byte(b: u8) -> DNA {
    nibble_symbol(b as int % 16)
}

/// Decoding of a character: the four bases in either case, anything else is `N`.
pub open spec fn symbol_of_char(c: char) -> DNA {
    if c == 'A' || c == 'a' {
        DNA::A
    } else if c == 'C' || c == 'c' {
        DNA::C
    } else if c == 'G' || c == 'g' {
        DNA::G
    } else if c == 'T' || c == 't' {
        DNA::T
    } else {
        DNA::N
    }
}

/// Rotation of a four-bit pattern by two bits.
pub open spec fn rotate_nibble(n: int) -> int {
    (n % 4) * 4 + n / 4
}

impl DNA {
    /// The four-bit pattern of the symbol.
    pub open spec fn spec_bits(self) -> u8 {
        match self {
            DNA::Gap => 0,
            DNA::T => 1,
            DNA::C => 2,
            DNA::Y => 3,
            DNA::A => 4,
            DNA::W => 5,
            DNA::M => 6,
            DNA::H => 7,
            DNA::G => 8,
            DNA::K => 9,
            DNA::S => 10,
            DNA::B => 11,
            DNA::R => 12,
            DNA::D => 13,
            DNA::V => 14,
            DNA::N => 15,
        }
    }

    pub open spec fn spec_complement(self) -> DNA {
        nibble_symbol(rotate_nibble(self.spec_bits() as int))
    }

    /// Whether the symbol is one of the four unambiguous bases.
    pub open spec fn is_base(self) -> bool {
        self == DNA::A || self == DNA::C || self == DNA::G || self == DNA::T
    }

    #[verifier::when_used_as_spec(spec_bits)]
    pub fn bits(self) -> (r: u8)
        ensures
            r == self.spec_bits(),
            r < 16,
    {
        match self {
            DNA::Gap => 0,
            DNA::T => 1,
            DNA::C => 2,
            DNA::Y => 3,
            DNA::A => 4,
            DNA::W => 5,
            DNA::M => 6,
            DNA::H => 7,
            DNA::G => 8,
            DNA::K => 9,
            DNA::S => 10,
            DNA::B => 11,
            DNA::R => 12,
            DNA::D => 13,
            DNA::V => 14,
            DNA::N => 15,
        }
    }

    /// Decodes the low four bits of a byte; every byte names a symbol.
    pub fn from_bits(b: u8) -> (r: DNA)
        ensures
            r == symbol_of_byte(b),
    {
        let n = b & 0b1111;
        assert(n == b % 16) by (bit_vector)
            requires
                n == b & 0b1111,
        ;
        match n {
            0 => DNA::Gap,
            1 => DNA::T,
            2 => DNA::C,
            3 => DNA::Y,
            4 => DNA::A,
            5 => DNA::W,
            6 => DNA::M,
            7 => DNA::H,
            8 => DNA::G,
            9 => DNA::K,
            10 => DNA::S,
            11 => DNA::B,
            12 => DNA::R,
            13 => DNA::D,
            14 => DNA::V,
            _ => DNA::N,
        }
    }

    /// Decodes a character: `A`, `C`, `G`, `T` in either case, else `N`.
    pub fn from_char(c: char) -> (r: DNA)
        ensures
            r == symbol_of_char(c),
    {
        match c {
            'a' | 'A' => DNA::A,
            'c' | 'C' => DNA::C,
            'g' | 'G' => DNA::G,
            't' | 'T' => DNA::T,
            _ => DNA::N,
        }
    }

    /// The complementary symbol: the A/T bits and the C/G bits trade places.
    pub fn complement(self) -> (r: DNA)
        ensures
            r == self.spec_complement(),
    {
        let bits = self.bits();
        DNA::from_bits((bits % 4) * 4 + bits / 4)
    }
}

/// Every symbol decodes back from its own pattern.
pub proof fn lemma_bits_round_trip(d: DNA)
    ensures
        symbol_of_byte(d.spec_bits()) == d,
        nibble_symbol(d.spec_bits() as int) == d,
{
}

/// Complementing twice gives back the symbol, for each of the sixteen symbols.
pub proof fn lemma_complement_involution(d: DNA)
    ensures
        d.spec_complement().spec_complement() == d,
{
}

/// Decoding a recognised base character and complementing twice gives the
/// decoded base back.
pub proof fn lemma_char_complement_involution(c: char)
    requires
        c == 'A' || c == 'a' || c == 'C' || c == 'c' || c == 'G' || c == 'g' || c == 'T' || c
            == 't',
    ensures
        symbol_of_char(c).spec_complement().spec_complement() == symbol_of_char(c),
        symbol_of_char(c).is_base(),
        symbol_of_char(c).spec_complement().is_base(),
{
    lemma_complement_involution(symbol_of_char(c));
}

/// Watson-Crick pairs and the ambiguity codes that pair with themselves or
/// with each other.
pub proof fn lemma_complement_pairs()
    ensures
        DNA::A.spec_complement() == DNA::T,
        DNA::T.spec_complement() == DNA::A,
        DNA::G.spec_complement() == DNA::C,
        DNA::C.spec_complement() == DNA::G,
        DNA::W.spec_complement() == DNA::W,
        DNA::S.spec_complement() == DNA::S,
        DNA::K.spec_complement() == DNA::M,
        DNA::M.spec_complement() == DNA::K,
        DNA::N.spec_complement() == DNA::N,
        DNA::Gap.spec_complement() == DNA::Gap,
        symbol_of_char('A').spec_complement() == DNA::T,
        symbol_of_char('G').spec_complement() == DNA::C,
{
}

/// Each nibble names the symbol whose pattern it is.
pub proof fn lemma_nibble_round_trip(n: int)
    requires
        0 <= n < 16,
    ensures
        nibble_symbol(n).spec_bits() == n,
{
}

/// Combining two symbols with `&`, `|` or `^` is commutative, and the result
/// carries exactly the combined pattern: no pattern is lost by decoding.
pub proof fn lemma_operators(a: DNA, b: DNA)
    ensures
        symbol_of_byte(a.spec_bits() & b.spec_bits()) == symbol_of_byte(b.spec_bits() & a.spec_bits()),
        symbol_of_byte(a.spec_bits() | b.spec_bits()) == symbol_of_byte(b.spec_bits() | a.spec_bits()),
        symbol_of_byte(a.spec_bits() ^ b.spec_bits()) == symbol_of_byte(b.spec_bits() ^ a.spec_bits()),
        symbol_of_byte(a.spec_bits() & b.spec_bits()).spec_bits() == a.spec_bits() & b.spec_bits(),
        symbol_of_byte(a.spec_bits() | b.spec_bits()).spec_bits() == a.spec_bits() | b.spec_bits(),
        symbol_of_byte(a.spec_bits() ^ b.spec_bits()).spec_bits() == a.spec_bits() ^ b.spec_bits(),
{
    let x = a.spec_bits();
    let y = b.spec_bits();
    assert(x & y == y & x && x | y == y | x && x ^ y == y ^ x) by (bit_vector);
    assert((x & y) < 16 && (x | y) < 16 && (x ^ y) < 16) by (bit_vector)
        requires
            x < 16,
            y < 16,
    ;
    lemma_nibble_round_trip((x & y) as int);
    lemma_nibble_round_trip((x | y) as int);
    lemma_nibble_round_trip((x ^ y) as int);
}

impl From<u8> for DNA {
    fn from(i: u8) -> (r: DNA) {
        DNA::from_bits(i)
    }
}

impl vstd::std_specs::convert::FromSpecImpl<u8> for DNA {
    open spec fn obeys_from_spec() -> bool {
        true
    }

    open spec fn from_spec(v: u8) -> DNA {
        symbol_of_byte(v)
    }
}

impl From<char> for DNA {
    fn from(c: char) -> (r: DNA) {
        DNA::from_char(c)
    }
}

impl vstd::std_specs::convert::FromSpecImpl<char> for DNA {
    open spec fn obeys_from_spec() -> bool {
        true
    }

    open spec fn from_spec(v: char) -> DNA {
        symbol_of_char(v)
    }
}

impl<'a> From<&'a char> for DNA {
    fn from(c: &'a char) -> (r: DNA) {
        DNA::from_char(*c)
    }
}

impl<'a> vstd::std_specs::convert::FromSpecImpl<&'a char> for DNA {
    open spec fn obeys_from_spec() -> bool {
        true
    }

    open spec fn from_spec(v: &'a char) -> DNA {
        symbol_of_char(*v)
    }
}

impl BitAnd for DNA {
    type Output = DNA;

    fn bitand(self, rhs: DNA) -> (r: DNA) {
        DNA::from_bits(self.bits() & rhs.bits())
    }
}

impl vstd::std_specs::ops::BitAndSpecImpl for DNA {
    open spec fn obeys_bitand_spec() -> bool {
        true
    }

    open spec fn bitand_req(self, rhs: DNA) -> bool {
        true
    }

    open spec fn bitand_spec(self, rhs: DNA) -> DNA {
        symbol_of_byte(self.spec_bits() & rhs.spec_bits())
    }
}

impl BitOr for DNA {
    type Output = DNA;

    fn bitor(self, rhs: DNA) -> (r: DNA) {
        DNA::from_bits(self.bits() | rhs.bits())
    }
}

impl vstd::std_specs::ops::BitOrSpecImpl for DNA {
    open spec fn obeys_bitor_spec() -> bool {
        true
    }

    open spec fn bitor_req(self, rhs: DNA) -> bool {
        true
    }

    open spec fn bitor_spec(self, rhs: DNA) -> DNA {
        symbol_of_byte(self.spec_bits() | rhs.spec_bits())
    }
}

impl BitXor for DNA {
    type Output = DNA;

    fn bitxor(self, rhs: DNA) -> (r: DNA) {
        DNA::from_bits(self.bits() ^ rhs.bits())
    }
}

impl vstd::std_specs::ops::BitXorSpecImpl for DNA {
    open spec fn obeys_bitxor_spec() -> bool {
        true
    }

    open spec fn bitxor_req(self, rhs: DNA) -> bool {
        true
    }

    open spec fn bitxor_spec(self, rhs: DNA) -> DNA {
        symbol_of_byte(self.spec_bits() ^ rhs.spec_bits())
    }
}

} // verus!
