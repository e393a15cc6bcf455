//! FASTA records and a pull-based reader over in-memory text.
//!
//! A record starts at a line whose first character is `>`; its identifier is
//! the rest of that line, without trailing line-ending characters, up to the
//! first space. Every following line up to the next header or the end of the
//! text is a sequence line: its trailing CR/LF are removed and the lines are
//! joined without separators. Lines before the first header are skipped; text
//! that holds lines but no header at all is a format error.
use crate::text::{chars_of, push_char};
use vstd::prelude::*;

verus! {

/// The mathematical value of a record: its identifier and its sequence.
pub struct RecordView {
    pub id: Seq<char>,
    pub seq: Seq<char>,
}

/// The record with an empty identifier and an empty sequence.
pub open spec fn empty_record() -> RecordView {
    RecordView { id: Seq::empty(), seq: Seq::empty() }
}

/// Why no record could be read.
#[derive(Debug, Clone, Copy, PartialEq, Eq, Structural)]
pub enum FastaError {
    /// The text holds lines but none of them is a `>` header.
    NoValidRecord,
}

/// The number of G and C characters (upper case) in `s`.
pub open spec fn gc_count_of(s: Seq<char>) -> nat
    decreases s.len(),
{
    if s.len() == 0 {
        0
    } else {
        gc_count_of(s.drop_last()) + if s.last() == 'C' || s.last() == 'G' {
            1nat
        } else {
            0nat
        }
    }
}

/// The number of characters after `pos` on the line that holds `pos`, up to
/// and including its `\n`.
pub open spec fn line_more(data: Seq<char>, pos: nat) -> nat
    decreases data.len() - pos,
{
    if pos + 1 >= data.len() || data[pos as int] == '\n' {
        0
    } else {
        1 + line_more(data, pos + 1)
    }
}

/// Where the line that starts at `pos` ends: just past its `\n`, or at the
/// end of the text.
pub open spec fn line_end_at(data: Seq<char>, pos: nat) -> nat {
    let e = pos + 1 + line_more(data, pos);
    if e <= data.len() {
        e
    } else {
        data.len()
    }
}

/// `s` without its trailing `\n` and `\r` characters.
pub open spec fn trim_eol(s: Seq<char>) -> Seq<char>
    decreases s.len(),
{
    if s.len() > 0 && (s.last() == '\n' || s.last() == '\r') {
        trim_eol(s.drop_last())
    } else {
        s
    }
}

/// The prefix of `s` before its first space.
pub open spec fn take_until_space(s: Seq<char>) -> Seq<char>
    decreases s.len(),
{
    if s.len() == 0 || s[0] == ' ' {
        Seq::empty()
    } else {
        seq![s[0]] + take_until_space(s.drop_first())
    }
}

/// The identifier that a header line gives, the `>` being its first character.
pub open spec fn header_id(line: Seq<char>) -> Seq<char> {
    take_until_space(trim_eol(line.drop_first()))
}

/// Whether a header line starts at `pos`.
pub open spec fn is_header_at(data: Seq<char>, pos: nat) -> bool {
    pos < data.len() && data[pos as int] == '>'
}

/// The sequence that the lines from `pos` up to the next header give.
pub open spec fn body(data: Seq<char>, pos: nat) -> Seq<char>
    decreases data.len() - pos,
{
    if pos >= data.len() || data[pos as int] == '>' {
        Seq::empty()
    } else {
        let e = line_end_at(data, pos);
        trim_eol(data.subrange(pos as int, e as int)) + body(data, e)
    }
}

/// The record whose header line starts at `pos`.
pub open spec fn record_at(data: Seq<char>, pos: nat) -> RecordView {
    let e = line_end_at(data, pos);
    RecordView { id: header_id(data.subrange(pos as int, e as int)), seq: body(data, e) }
}

/// The records whose headers start at or after `pos`, in the order of the text.
pub open spec fn records_from(data: Seq<char>, pos: nat) -> Seq<Result<RecordView, FastaError>>
    decreases data.len() - pos,
{
    if pos >= data.len() {
        Seq::empty()
    } else if data[pos as int] == '>' {
        seq![Ok(record_at(data, pos))] + records_from(data, line_end_at(data, pos))
    } else {
        records_from(data, line_end_at(data, pos))
    }
}

/// Everything that reading `data` yields, in order: one `Ok` per header line,
/// or a single error when the text is not empty but holds no header line.
pub open spec fn fasta_outcomes(data: Seq<char>) -> Seq<Result<RecordView, FastaError>> {
    let recs = records_from(data, 0);
    if recs.len() == 0 && data.len() > 0 {
        seq![Err(FastaError::NoValidRecord)]
    } else {
        recs
    }
}

/// A sequence record: an identifier and a sequence.
pub struct Record {
    id: String,
    seq: String,
}

impl View for Record {
    type V = RecordView;

    closed spec fn view(&self) -> RecordView {
        RecordView { id: self.id@, seq: self.seq@ }
    }
}

/// The value of a read outcome.
pub open spec fn outcome_view(x: Result<Record, FastaError>) -> Result<RecordView, FastaError> {
    match x {
        Ok(r) => Ok(r@),
        Err(e) => Err(e),
    }
}

impl Record {
    /// A record with an empty identifier and sequence.
    pub fn new() -> (r: Record)
        ensures
            r@ == empty_record(),
    {
        Record { id: String::new(), seq: String::new() }
    }

    /// Whether both the identifier and the sequence are empty.
    pub fn is_empty(&self) -> (r: bool)
        ensures
            r == (self@.id.len() == 0 && self@.seq.len() == 0),
    {
        self.id.as_str().is_empty() && self.seq.as_str().is_empty()
    }

    fn clear(&mut self)
        ensures
            final(self)@ == empty_record(),
    {
        self.id = String::new();
        self.seq = String::new();
    }

    /// The number of `C` and `G` characters in the sequence.
    pub fn gc_count(&self) -> (r: usize)
        ensures
            r == gc_count_of(self@.seq),
    {
        let chars = chars_of(self.seq.as_str());
        let mut count: usize = 0;
        let mut i: usize = 0;
        while i < chars.len()
            invariant
                i <= chars@.len(),
                chars@ == self@.seq,
                count == gc_count_of(chars@.subrange(0, i as int)),
                count <= i,
            decreases chars.len() - i,
        {
            assert(chars@.subrange(0, i + 1).drop_last() =~= chars@.subrange(0, i as int));
            if chars[i] == 'C' || chars[i] == 'G' {
                count = count + 1;
            }
            i = i + 1;
        }
        assert(chars@.subrange(0, i as int) =~= chars@);
        count
    }

    /// The identifier.
    pub fn id(&self) -> (r: &String)
        ensures
            r@ == self@.id,
    {
        &self.id
    }

    /// The sequence.
    pub fn seq(&self) -> (r: &String)
        ensures
            r@ == self@.seq,
    {
        &self.seq
    }
}

enum ReaderState {
    /// No header met yet.
    Seeking,
    /// The position is at a header or at the end of the text.
    InRecord,
    /// Nothing more to read.
    Done,
}

/// A FASTA reader: each call of `next` or `read` yields the following record.
pub struct FastaReader {
    text: Vec<char>,
    pos: usize,
    state: ReaderState,
}

impl View for FastaReader {
    type V = Seq<Result<RecordView, FastaError>>;

    /// What the reader has still to yield.
    closed spec fn view(&self) -> Seq<Result<RecordView, FastaError>> {
        match self.state {
            ReaderState::Seeking => fasta_outcomes(self.text@),
            ReaderState::InRecord => records_from(self.text@, self.pos as nat),
            ReaderState::Done => Seq::empty(),
        }
    }
}

/// The end of the line that starts at `pos`.
fn line_end(t: &Vec<char>, pos: usize) -> (e: usize)
    requires
        pos < t@.len(),
    ensures
        e == line_end_at(t@, pos as nat),
        e == pos + 1 + line_more(t@, pos as nat),
        pos < e <= t@.len(),
{
    let n = t.len();
    let mut j = pos;
    while t[j] != '\n' && j + 1 < n
        invariant
            pos <= j < n == t@.len(),
            pos + line_more(t@, pos as nat) == j + line_more(t@, j as nat),
        decreases t@.len() - j,
    {
        j = j + 1;
    }
    j + 1
}

/// The end of `t[start..end]` once trailing `\n` and `\r` are removed.
fn trimmed_end(t: &Vec<char>, start: usize, end: usize) -> (k: usize)
    requires
        start <= end <= t@.len(),
    ensures
        start <= k <= end,
        t@.subrange(start as int, k as int) == trim_eol(t@.subrange(start as int, end as int)),
{
    let mut k = end;
    while k > start && (t[k - 1] == '\n' || t[k - 1] == '\r')
        invariant
            start <= k <= end <= t@.len(),
            trim_eol(t@.subrange(start as int, end as int)) == trim_eol(
                t@.subrange(start as int, k as int),
            ),
        decreases k,
    {
        assert(t@.subrange(start as int, k as int).drop_last() =~= t@.subrange(
            start as int,
            k - 1,
        ));
        k = k - 1;
    }
    k
}

impl FastaReader {
    /// Holds the invariant of the reader's position and state.
    pub closed spec fn wf(&self) -> bool {
        &&& self.pos <= self.text@.len()
        &&& self.state is Seeking ==> self.pos == 0
        &&& self.state is InRecord ==> self.pos == self.text@.len() || self.text@[self.pos as int]
            == '>'
    }

    /// A reader over `text`.
    pub fn new(text: &str) -> (r: FastaReader)
        ensures
            r.wf(),
            r@ == fasta_outcomes(text@),
    {
        FastaReader { text: chars_of(text), pos: 0, state: ReaderState::Seeking }
    }

    /// Reads the record whose header starts at `pos`.
    fn read_record(&self, pos: usize) -> (r: (Record, usize))
        requires
            self.wf(),
            is_header_at(self.text@, pos as nat),
        ensures
            r.0@ == record_at(self.text@, pos as nat),
            records_from(self.text@, pos as nat) == seq![Ok(r.0@)] + records_from(
                self.text@,
                r.1 as nat,
            ),
            pos < r.1 <= self.text@.len(),
            r.1 == self.text@.len() || self.text@[r.1 as int] == '>',
    {
        let t = &self.text;
        let ghost d = t@;
        let e = line_end(t, pos);
        // The identifier.
        let k = trimmed_end(t, pos + 1, e);
        assert(d.subrange(pos as int, e as int).drop_first() =~= d.subrange(pos + 1, e as int));
        let mut id = String::new();
        let mut i = pos + 1;
        while i < k && t[i] != ' '
            invariant
                pos + 1 <= i <= k <= e <= d.len(),
                t@ == d,
                take_until_space(d.subrange(pos + 1, k as int)) == id@ + take_until_space(
                    d.subrange(i as int, k as int),
                ),
            decreases k - i,
        {
            assert(d.subrange(i as int, k as int).drop_first() =~= d.subrange(i + 1, k as int));
            assert(id@.push(t@[i as int]) + take_until_space(d.subrange(i + 1, k as int)) =~= id@
                + (seq![t@[i as int]] + take_until_space(d.subrange(i + 1, k as int))));
            push_char(&mut id, t[i]);
            i = i + 1;
        }
        assert(id@ + take_until_space(d.subrange(i as int, k as int)) =~= id@);
        // The sequence lines.
        let mut seq = String::new();
        let mut p = e;
        while p < t.len() && t[p] != '>'
            invariant
                e <= p <= d.len(),
                t@ == d,
                body(d, e as nat) == seq@ + body(d, p as nat),
                records_from(d, e as nat) == records_from(d, p as nat),
            decreases d.len() - p,
        {
            let le = line_end(t, p);
            let k2 = trimmed_end(t, p, le);
            let ghost before = seq@;
            let mut j = p;
            while j < k2
                invariant
                    p <= j <= k2 <= le <= d.len(),
                    t@ == d,
                    seq@ == before + d.subrange(p as int, j as int),
                decreases k2 - j,
            {
                assert(d.subrange(p as int, j + 1) =~= d.subrange(p as int, j as int).push(
                    d[j as int],
                ));
                push_char(&mut seq, t[j]);
                j = j + 1;
            }
            assert(before + body(d, p as nat) =~= seq@ + body(d, le as nat));
            p = le;
        }
        assert(seq@ + body(d, p as nat) =~= seq@);
        (Record { id, seq }, p)
    }

    /// The next outcome: `None` once everything has been yielded, else the
    /// next record or the format error.
    pub fn next(&mut self) -> (r: Option<Result<Record, FastaError>>)
        requires
            old(self).wf(),
        ensures
            final(self).wf(),
            old(self)@.len() == 0 ==> r is None && final(self)@ == old(self)@,
            old(self)@.len() > 0 ==> r is Some && outcome_view(r->0) == old(self)@[0]
                && final(self)@ == old(self)@.drop_first(),
    {
        let len = self.text.len();
        match self.state {
            ReaderState::Done => {
                return None;
            },
            ReaderState::Seeking => {
                let mut p: usize = 0;
                while p < len && self.text[p] != '>'
                    invariant
                        p <= len == self.text@.len(),
                        records_from(self.text@, 0) == records_from(self.text@, p as nat),
                    decreases len - p,
                {
                    p = line_end(&self.text, p);
                }
                self.pos = p;
                if p >= len {
                    self.state = ReaderState::Done;
                    if p > 0 {
                        return Some(Err(FastaError::NoValidRecord));
                    } else {
                        return None;
                    }
                }
                self.state = ReaderState::InRecord;
            },
            ReaderState::InRecord => {},
        }
        if self.pos >= len {
            self.state = ReaderState::Done;
            return None;
        }
        let (rec, p) = self.read_record(self.pos);
        proof {
            let rest = records_from(self.text@, p as nat);
            assert((seq![Ok(rec@)] + rest).drop_first() =~= rest);
        }
        self.pos = p;
        Some(Ok(rec))
    }

    /// Reads the next record into `record`. At the end of the text the record
    /// is left empty and `Ok` is returned; the format error leaves it empty too.
    pub fn read(&mut self, record: &mut Record) -> (r: Result<(), FastaError>)
        requires
            old(self).wf(),
        ensures
            final(self).wf(),
            old(self)@.len() == 0 ==> r is Ok && final(record)@ == empty_record() && final(self)@
                == old(self)@,
            old(self)@.len() > 0 ==> final(self)@ == old(self)@.drop_first() && match old(
                self,
            )@[0] {
                Ok(v) => r is Ok && final(record)@ == v,
                Err(e) => r == Err::<(), FastaError>(e) && final(record)@ == empty_record(),
            },
    {
        record.clear();
        match self.next() {
            None => Ok(()),
            Some(Ok(rec)) => {
                *record = rec;
                Ok(())
            },
            Some(Err(e)) => Err(e),
        }
    }
}

} // verus!
