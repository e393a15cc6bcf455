use rustalind::dna::{count_occurrences, fmt_nucleotide_occurrences};
use rustalind::fib::{calculate_rabbit_population, checked_rabbit_population};
use rustalind::hamm::{hamming_distance, Pairer};
use rustalind::iprb::dominant_phenotype_fraction;
use rustalind::prot;
use rustalind::revc::reverse_complement;
use rustalind::rna;
use std::collections::HashMap;

#[test]
fn count_basic_occurrences() {
    let input = String::from(
        "AGCTTTTCATTCTGACTGCAACGGGCAATATGTCTCTGTGTGGATTAAAAAAAGAGTGTCTGATAGCAGC",
    );

    let mut expected = HashMap::new();
    expected.insert('A', 20);
    expected.insert('C', 12);
    expected.insert('G', 17);
    expected.insert('T', 21);

    let counted: HashMap<char, u32> = count_occurrences(&input).into_iter().collect();
    assert_eq!(counted, expected);
}

#[test]
fn formatted_occurrences() {
    let input = "AGCTTTTCATTCTGACTGCAACGGGCAATATGTCTCTGTGTGGATTAAAAAAAGAGTGTCTGATAGCAGC";
    assert_eq!(
        fmt_nucleotide_occurrences(input, &['A', 'C', 'G', 'T']),
        "20 12 17 21"
    );
    assert_eq!(fmt_nucleotide_occurrences("", &['A', 'C']), "0 0");
    assert_eq!(fmt_nucleotide_occurrences("AAAAAAAAAAAA", &['A']), "12");
    assert_eq!(fmt_nucleotide_occurrences("A", &[]), "");
}

#[test]
fn occurrence_table_lists_each_character_once() {
    let table = count_occurrences("abcab");
    assert_eq!(table, vec![('a', 2), ('b', 2), ('c', 1)]);
    assert!(count_occurrences("").is_empty());
}

#[test]
fn test_basic_recurrence() {
    let calculated = calculate_rabbit_population(5, 3);
    assert_eq!(calculated, 19)
}

#[test]
fn rabbit_population_small_cases() {
    assert_eq!(calculate_rabbit_population(0, 3), 0);
    assert_eq!(calculate_rabbit_population(1, 3), 1);
    assert_eq!(calculate_rabbit_population(2, 3), 1);
    assert_eq!(calculate_rabbit_population(10, 1), 55);
    assert_eq!(checked_rabbit_population(5, 3), Some(19));
    assert_eq!(checked_rabbit_population(200, 5), None);
}

#[test]
fn basic_distance() {
    let str1 = "GAGCCTACTAACGGGAT";
    let str2 = "CATCGTAATGACGGCCT";
    assert_eq!(7, hamming_distance(str1, str2));
}

#[test]
fn distance_over_common_length() {
    assert_eq!(hamming_distance("", ""), 0);
    assert_eq!(hamming_distance("AAAA", "AT"), 1);
    assert_eq!(hamming_distance("ACGT", "ACGT"), 0);
}

#[test]
fn pairer_drops_an_unpaired_last_line() {
    let lines = vec![
        String::from("a"),
        String::from("b"),
        String::from("c"),
    ];
    let mut pairs = Pairer::new(lines);
    assert_eq!(pairs.next(), Some((String::from("a"), String::from("b"))));
    assert_eq!(pairs.next(), None);
    assert_eq!(pairs.next(), None);
}

#[test]
fn test_translate() {
    let test_input = String::from("AUGGCCAUGGCGCCCAGAACUGAGAUCAAUAGUACCCGUAUUAACGGGUGA");
    let expected = String::from("MAMAPRTEINSTRING");
    assert_eq!(prot::translate(&test_input), expected);
}

#[test]
fn translate_ignores_trailing_partial_codon_and_reads_ambiguity_as_unknown() {
    assert_eq!(prot::translate(&String::from("augGC")), "M");
    assert_eq!(prot::translate(&String::from("ANG")), "X");
    assert_eq!(prot::translate(&String::from("UAAAUG")), "M");
}

#[test]
fn test_reverse_complement() {
    let input = String::from("AAAACCCGGT");
    assert_eq!(reverse_complement(&input), "ACCGGGTTTT");
}

#[test]
fn reverse_complement_keeps_other_characters() {
    assert_eq!(reverse_complement("AcN\n"), "\nNcT");
    assert_eq!(reverse_complement(""), "");
}

#[test]
fn test_translation() {
    let input = "GATGGAACTTGACTACGTAAATT";
    assert_eq!(rna::translate(input), String::from("GAUGGAACUUGACUACGUAAAUU"));
}

#[test]
fn transcription_keeps_case() {
    assert_eq!(rna::translate("tTaX"), "uUaX");
}

#[test]
fn dominant_phenotype_counts() {
    assert_eq!(dominant_phenotype_fraction(2, 2, 2), (94, 120));
    assert_eq!(dominant_phenotype_fraction(0, 0, 2), (0, 8));
    assert_eq!(dominant_phenotype_fraction(0, 0, 0), (0, 0));
}
