use rustalind::gc::highest_gc;
use rustalind::io::{FastaError, FastaReader, Record};

const BASIC_FASTA_FORMAT: &str = ">id desc
ACCGTAGGCTGA
CCGTAGGCTGAA
CGTAGGCTGAAA
GTAGGCTGAAAA
CCCC
>id2
ATTGTTGTTTTA
ATTGTTGTTTTA
ATTGTTGTTTTA
GGGG
";

const EMPTY_FASTA_FILE: &str = "";

const ERRONEOUS_FASTA_FORMAT_01: &str = "
these lines at the beginning
are just junk that should
be ignored

>id desc
ACCGTAGGCTGA
CCGTAGGCTGAA
CGTAGGCTGAAA
GTAGGCTGAAAA
CCCC
>id2
ATTGTTGTTTTA
ATTGTTGTTTTA
ATTGTTGTTTTA
GGGG
";

fn all_outcomes(text: &str) -> Vec<Result<Record, FastaError>> {
    let mut reader = FastaReader::new(text);
    let mut out = Vec::new();
    while let Some(x) = reader.next() {
        out.push(x);
    }
    out
}

fn ok_records(text: &str) -> Vec<Record> {
    all_outcomes(text).into_iter().filter_map(Result::ok).collect()
}

#[test]
fn blank_fasta() {
    let mut blank_reader = FastaReader::new(EMPTY_FASTA_FILE);
    assert!(blank_reader.next().is_none());
}

#[test]
fn erroneous_fasta() {
    let record_count = ok_records(ERRONEOUS_FASTA_FORMAT_01).len();
    assert_eq!(2, record_count);
}

#[test]
fn test_gc_counting() {
    let a: Vec<usize> = ok_records(BASIC_FASTA_FORMAT)
        .iter()
        .map(|rec: &Record| rec.gc_count())
        .collect();
    assert_eq!(a, vec![29, 10]);
}

#[test]
fn junk_before_header_gives_no_error() {
    let outcomes = all_outcomes(ERRONEOUS_FASTA_FORMAT_01);
    assert_eq!(outcomes.len(), 2);
    assert!(outcomes.iter().all(|x| x.is_ok()));
}

#[test]
fn records_keep_id_and_joined_sequence() {
    let recs = ok_records(BASIC_FASTA_FORMAT);
    assert_eq!(recs.len(), 2);
    assert_eq!(recs[0].id(), "id");
    assert_eq!(
        recs[0].seq(),
        "ACCGTAGGCTGACCGTAGGCTGAACGTAGGCTGAAAGTAGGCTGAAAACCCC"
    );
    assert_eq!(recs[1].id(), "id2");
    assert_eq!(recs[1].seq().len(), 40);
}

#[test]
fn text_without_header_is_a_format_error() {
    let outcomes = all_outcomes("ACGT\nACGT\n");
    assert_eq!(outcomes.len(), 1);
    assert_eq!(outcomes[0].as_ref().err(), Some(&FastaError::NoValidRecord));
    let blank_lines = all_outcomes("\n");
    assert_eq!(blank_lines.len(), 1);
    assert!(blank_lines[0].is_err());
}

#[test]
fn crlf_line_endings_are_stripped() {
    let recs = ok_records(">seq1 some text\r\nAC\r\nGT\r\n>seq2\r\n\r\nGG");
    assert_eq!(recs.len(), 2);
    assert_eq!(recs[0].id(), "seq1");
    assert_eq!(recs[0].seq(), "ACGT");
    assert_eq!(recs[1].id(), "seq2");
    assert_eq!(recs[1].seq(), "GG");
    assert_eq!(recs[1].gc_count(), 2);
}

#[test]
fn header_without_sequence_gives_an_empty_record() {
    let recs = ok_records(">\n>b\nCG");
    assert_eq!(recs.len(), 2);
    assert!(recs[0].is_empty());
    assert_eq!(recs[1].id(), "b");
}

#[test]
fn read_fills_a_record_and_leaves_it_empty_at_the_end() {
    let mut reader = FastaReader::new(">x\nGGCA\n");
    let mut rec = Record::new();
    assert!(rec.is_empty());
    assert_eq!(reader.read(&mut rec), Ok(()));
    assert_eq!(rec.id(), "x");
    assert_eq!(rec.gc_count(), 3);
    assert_eq!(reader.read(&mut rec), Ok(()));
    assert!(rec.is_empty());
    let mut bad = FastaReader::new("junk\n");
    assert_eq!(bad.read(&mut rec), Err(FastaError::NoValidRecord));
    assert!(bad.next().is_none());
}

#[test]
fn gc_count_is_case_sensitive() {
    let recs = ok_records(">lower\ngcGC\n");
    assert_eq!(recs[0].gc_count(), 2);
}

#[test]
fn highest_gc_record_is_chosen() {
    let recs = ok_records(BASIC_FASTA_FORMAT);
    assert_eq!(highest_gc(&recs), Some(0));
    let recs = ok_records(">low\nAT\n>high\nGC\n>mid\nGA\n");
    assert_eq!(highest_gc(&recs), Some(1));
    assert_eq!(highest_gc(&Vec::new()), None);
}

#[test]
fn highest_gc_prefers_the_last_of_equals() {
    let recs = ok_records(">a\nGA\n>b\nCT\n");
    assert_eq!(highest_gc(&recs), Some(1));
    let with_empty = ok_records(">a\nGG\n>b\n");
    assert_eq!(highest_gc(&with_empty), Some(1));
}
