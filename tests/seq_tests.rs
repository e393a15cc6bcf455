use rustalind::seq::codon::Codon;
use rustalind::seq::nuc::DNA;
use rustalind::seq::translation::ncbi_translation_tables::{standard, vertebrate_mitochondrial};
use rustalind::seq::translation::{TranslatedCodon, TranslationTable};
use std::convert::TryFrom;

const ALL_SYMBOLS: [DNA; 16] = [
    DNA::Gap,
    DNA::T,
    DNA::C,
    DNA::Y,
    DNA::A,
    DNA::W,
    DNA::M,
    DNA::H,
    DNA::G,
    DNA::K,
    DNA::S,
    DNA::B,
    DNA::R,
    DNA::D,
    DNA::V,
    DNA::N,
];

#[test]
fn nuc_dna_as_tagged_enums() {
    assert_eq!(DNA::T as u8, 1);
    assert_eq!(DNA::C as u8, 2);
    assert_eq!(DNA::A as u8, 4);
    assert_eq!(DNA::G as u8, 8);
}

#[test]
fn nuc_dna_from_chars() {
    assert_eq!(DNA::from('A'), DNA::A);
    assert_eq!(DNA::from('a'), DNA::A);
    assert_eq!(DNA::from('c'), DNA::C);
    assert_eq!(DNA::from('C'), DNA::C);
    assert_eq!(DNA::from('g'), DNA::G);
    assert_eq!(DNA::from('G'), DNA::G);
    assert_eq!(DNA::from('t'), DNA::T);
    assert_eq!(DNA::from('T'), DNA::T);
    assert_eq!(DNA::from('k'), DNA::N);
    assert_eq!(DNA::from('Z'), DNA::N);
    assert_eq!(DNA::from('4'), DNA::N);
}

#[test]
fn nuc_dna_bit_or() {
    assert_eq!(DNA::A | DNA::A, DNA::A);
    assert_eq!(DNA::C | DNA::C, DNA::C);
    assert_eq!(DNA::G | DNA::G, DNA::G);
    assert_eq!(DNA::T | DNA::T, DNA::T);

    assert_eq!(DNA::A | DNA::T, DNA::W);
    assert_eq!(DNA::T | DNA::A, DNA::W);
    assert_eq!(DNA::G | DNA::C, DNA::S);
    assert_eq!(DNA::C | DNA::G, DNA::S);
    assert_eq!(DNA::T | DNA::G, DNA::K);
    assert_eq!(DNA::G | DNA::T, DNA::K);
    assert_eq!(DNA::A | DNA::G, DNA::R);
    assert_eq!(DNA::G | DNA::A, DNA::R);
    assert_eq!(DNA::C | DNA::T, DNA::Y);
    assert_eq!(DNA::T | DNA::C, DNA::Y);
}

#[test]
fn nuc_dna_bit_and() {
    assert_eq!(DNA::W & DNA::M, DNA::A);
    assert_eq!(DNA::Y & DNA::R, DNA::Gap);
    assert_eq!(DNA::S & DNA::Y, DNA::C);
    assert_eq!(DNA::N & DNA::N, DNA::N);
    assert_eq!(DNA::N & DNA::A, DNA::A);
}

#[test]
fn nuc_dna_bit_xor() {
    assert_eq!(DNA::W ^ DNA::Y, DNA::M);
    assert_eq!(DNA::T ^ DNA::W, DNA::A);
    assert_eq!(DNA::T ^ DNA::S, DNA::B);
}

#[test]
fn nuc_dna_complement() {
    assert_eq!(DNA::T.complement(), DNA::A);
    assert_eq!(DNA::A.complement(), DNA::T);
    assert_eq!(DNA::G.complement(), DNA::C);
    assert_eq!(DNA::C.complement(), DNA::G);
    assert_eq!(DNA::N.complement(), DNA::N);

    assert_eq!(DNA::W.complement(), DNA::W);
    assert_eq!(DNA::S.complement(), DNA::S);
    assert_eq!(DNA::K.complement(), DNA::M);
}

#[test]
fn dna_from_string() {
    let input = String::from("ATGGCCATGGCGCCCAGAACTGAGATCAATAGTACCCGTATTAACGGGTGA");
    let table = standard();
    let aa_seq: Vec<TranslatedCodon> = input.chars().collect::<Vec<char>>()[..]
        .chunks_exact(3)
        .map(Codon::try_from)
        .filter_map(Result::ok)
        .map(|codon| codon.translate(&table))
        .collect();
    assert_eq!(
        aa_seq,
        vec![
            TranslatedCodon::M,
            TranslatedCodon::A,
            TranslatedCodon::M,
            TranslatedCodon::A,
            TranslatedCodon::P,
            TranslatedCodon::R,
            TranslatedCodon::T,
            TranslatedCodon::E,
            TranslatedCodon::I,
            TranslatedCodon::N,
            TranslatedCodon::S,
            TranslatedCodon::T,
            TranslatedCodon::R,
            TranslatedCodon::I,
            TranslatedCodon::N,
            TranslatedCodon::G,
            TranslatedCodon::Stop
        ]
    );
}

#[test]
fn test_table_integration() {
    let methionine = Codon(DNA::A, DNA::T, DNA::G).translate(&standard());
    assert_eq!(methionine, TranslatedCodon::M);
}

#[test]
fn test_get() {
    let table = standard();
    assert_eq!(table.get(0), TranslatedCodon::F);
    assert_eq!(table.get(9999), TranslatedCodon::X);
}

#[test]
fn seq_dna_as_tagged_enums() {
    assert_eq!(DNA::T as u8, 1);
    assert_eq!(DNA::C as u8, 2);
    assert_eq!(DNA::A as u8, 4);
    assert_eq!(DNA::G as u8, 8);
}

#[test]
fn seq_dna_from_chars() {
    assert_eq!(DNA::from('A'), DNA::A);
    assert_eq!(DNA::from('a'), DNA::A);
    assert_eq!(DNA::from('c'), DNA::C);
    assert_eq!(DNA::from('C'), DNA::C);
    assert_eq!(DNA::from('g'), DNA::G);
    assert_eq!(DNA::from('G'), DNA::G);
    assert_eq!(DNA::from('t'), DNA::T);
    assert_eq!(DNA::from('T'), DNA::T);
    assert_eq!(DNA::from('k'), DNA::N);
    assert_eq!(DNA::from('Z'), DNA::N);
    assert_eq!(DNA::from('4'), DNA::N);
}

#[test]
fn seq_dna_bit_or() {
    assert_eq!(DNA::A | DNA::A, DNA::A);
    assert_eq!(DNA::C | DNA::C, DNA::C);
    assert_eq!(DNA::G | DNA::G, DNA::G);
    assert_eq!(DNA::T | DNA::T, DNA::T);

    assert_eq!(DNA::A | DNA::T, DNA::W);
    assert_eq!(DNA::T | DNA::A, DNA::W);
    assert_eq!(DNA::G | DNA::C, DNA::S);
    assert_eq!(DNA::C | DNA::G, DNA::S);
    assert_eq!(DNA::T | DNA::G, DNA::K);
    assert_eq!(DNA::G | DNA::T, DNA::K);
    assert_eq!(DNA::A | DNA::G, DNA::R);
    assert_eq!(DNA::G | DNA::A, DNA::R);
    assert_eq!(DNA::C | DNA::T, DNA::Y);
    assert_eq!(DNA::T | DNA::C, DNA::Y);
}

#[test]
fn seq_dna_bit_and() {
    assert_eq!(DNA::W & DNA::M, DNA::A);
    assert_eq!(DNA::Y & DNA::R, DNA::Gap);
    assert_eq!(DNA::S & DNA::Y, DNA::C);
    assert_eq!(DNA::N & DNA::N, DNA::N);
    assert_eq!(DNA::N & DNA::A, DNA::A);
}

#[test]
fn seq_dna_bit_xor() {
    assert_eq!(DNA::W ^ DNA::Y, DNA::M);
    assert_eq!(DNA::T ^ DNA::W, DNA::A);
    assert_eq!(DNA::T ^ DNA::S, DNA::B);
}

#[test]
fn seq_dna_complement() {
    assert_eq!(DNA::T.complement(), DNA::A);
    assert_eq!(DNA::A.complement(), DNA::T);
    assert_eq!(DNA::G.complement(), DNA::C);
    assert_eq!(DNA::C.complement(), DNA::G);
    assert_eq!(DNA::N.complement(), DNA::N);

    assert_eq!(DNA::W.complement(), DNA::W);
    assert_eq!(DNA::S.complement(), DNA::S);
    assert_eq!(DNA::K.complement(), DNA::M);
}

#[test]
fn codon_translation_index() {
    assert_eq!(Codon(DNA::A, DNA::T, DNA::G).get_translation_index(), Some(35));
}

#[test]
fn codon_translation_table_construction() {
    let ncbi_default = TranslationTable::new([
        'F', 'F', 'L', 'L', 'S', 'S', 'S', 'S', 'Y', 'Y', '*', '*', 'C', 'C', '*', 'W', 'L', 'L',
        'L', 'L', 'P', 'P', 'P', 'P', 'H', 'H', 'Q', 'Q', 'R', 'R', 'R', 'R', 'I', 'I', 'I', 'M',
        'T', 'T', 'T', 'T', 'N', 'N', 'K', 'K', 'S', 'S', 'R', 'R', 'V', 'V', 'V', 'V', 'A', 'A',
        'A', 'A', 'D', 'D', 'E', 'E', 'G', 'G', 'G', 'G',
    ]);
    assert_eq!(ncbi_default.get(35), TranslatedCodon::M);
}

#[test]
fn double_complement_of_base_characters() {
    for c in ['A', 'a', 'C', 'c', 'G', 'g', 'T', 't'] {
        assert_eq!(DNA::from(c).complement().complement(), DNA::from(c));
    }
}

#[test]
fn complement_is_an_involution_on_all_symbols() {
    for d in ALL_SYMBOLS {
        assert_eq!(d.complement().complement(), d);
    }
}

#[test]
fn complement_of_ambiguity_codes() {
    assert_eq!(DNA::from_char('A').complement(), DNA::T);
    assert_eq!(DNA::M.complement(), DNA::K);
    assert_eq!(DNA::R.complement(), DNA::Y);
    assert_eq!(DNA::Gap.complement(), DNA::Gap);
    assert_eq!(DNA::B.complement(), DNA::V);
    assert_eq!(DNA::D.complement(), DNA::H);
}

#[test]
fn bits_decode_back_for_every_byte() {
    for d in ALL_SYMBOLS {
        assert_eq!(DNA::from_bits(d.bits()), d);
        assert_eq!(DNA::from(d.bits() | 0b1111_0000), d);
    }
    assert_eq!(DNA::from(255u8), DNA::N);
    assert_eq!(DNA::from(0x10u8), DNA::Gap);
}

#[test]
fn iupac_letters_other_than_bases_read_as_n() {
    assert_eq!(DNA::from_char('W'), DNA::N);
    assert_eq!(DNA::from_char('-'), DNA::N);
    assert_eq!(DNA::from_char('u'), DNA::N);
    assert_eq!(DNA::from(&'g'), DNA::G);
    assert_eq!(DNA::from(&'x'), DNA::N);
}

#[test]
fn codon_index_uses_t_c_a_g_order() {
    assert_eq!(Codon(DNA::T, DNA::T, DNA::T).get_translation_index(), Some(0));
    assert_eq!(Codon(DNA::T, DNA::T, DNA::C).get_translation_index(), Some(1));
    assert_eq!(Codon(DNA::C, DNA::A, DNA::G).get_translation_index(), Some(27));
    assert_eq!(Codon(DNA::G, DNA::G, DNA::G).get_translation_index(), Some(63));
    assert_eq!(Codon(DNA::A, DNA::N, DNA::G).get_translation_index(), None);
    assert_eq!(Codon(DNA::Gap, DNA::T, DNA::G).get_translation_index(), None);
}

#[test]
fn ambiguous_codon_translates_to_unknown() {
    let table = standard();
    assert_eq!(Codon(DNA::A, DNA::T, DNA::W).translate(&table), TranslatedCodon::X);
    assert_eq!(Codon(DNA::T, DNA::A, DNA::A).translate(&table), TranslatedCodon::Stop);
}

#[test]
fn codon_from_wrong_number_of_characters_is_refused() {
    let two: &[char] = &['A', 'T'];
    let four: &[char] = &['A', 'T', 'G', 'C'];
    let three: &[char] = &['a', 't', 'g'];
    assert_eq!(Codon::try_from(two), Err(()));
    assert_eq!(Codon::try_from(four), Err(()));
    assert_eq!(Codon::try_from(three), Ok(Codon(DNA::A, DNA::T, DNA::G)));
}

#[test]
fn mitochondrial_code_differs_where_expected() {
    let std_table = standard();
    let mito = vertebrate_mitochondrial();
    let tga = Codon(DNA::T, DNA::G, DNA::A);
    let ata = Codon(DNA::A, DNA::T, DNA::A);
    let aga = Codon(DNA::A, DNA::G, DNA::A);
    let agg = Codon(DNA::A, DNA::G, DNA::G);
    assert_eq!(tga.translate(&std_table), TranslatedCodon::Stop);
    assert_eq!(tga.translate(&mito), TranslatedCodon::W);
    assert_eq!(ata.translate(&std_table), TranslatedCodon::I);
    assert_eq!(ata.translate(&mito), TranslatedCodon::M);
    assert_eq!(aga.translate(&std_table), TranslatedCodon::R);
    assert_eq!(aga.translate(&mito), TranslatedCodon::Stop);
    assert_eq!(agg.translate(&mito), TranslatedCodon::Stop);
    let mut differing = 0;
    for i in 0..64 {
        if std_table.get(i) != mito.get(i) {
            differing += 1;
        }
    }
    assert_eq!(differing, 4);
}

#[test]
fn table_from_unknown_letters_holds_unknown() {
    let mut letters = ['?'; 64];
    letters[0] = 'W';
    letters[1] = '*';
    let table = TranslationTable::new(letters);
    assert_eq!(table.get(0), TranslatedCodon::W);
    assert_eq!(table.get(1), TranslatedCodon::Stop);
    assert_eq!(table.get(2), TranslatedCodon::X);
    assert_eq!(table.get(64), TranslatedCodon::X);
}

#[test]
fn amino_letters_round_trip() {
    for c in "ACDEFGHIKLMNPQRSTVWYX*".chars() {
        let aa = TranslatedCodon::from(c);
        assert_eq!(char::from(aa), c);
    }
    assert_eq!(TranslatedCodon::from('b'), TranslatedCodon::X);
    assert_eq!(TranslatedCodon::default(), TranslatedCodon::X);
}
