//! Hamming distance, and the pairing of lines that feeds it.
use crate::text::chars_of;
use vstd::prelude::*;

verus! {

/// The number of positions below `n` where `a` and `b` differ.
pub open spec fn mismatches(a: Seq<char>, b: Seq<char>, n: nat) -> nat
    decreases n,
{
    if n == 0 {
        0
    } else {
        mismatches(a, b, (n - 1) as nat) + if a[n - 1] != b[n - 1] {
            1nat
        } else {
            0nat
        }
    }
}

/// The Hamming distance over the common length of two strings: the number of
/// positions, up to the end of the shorter one, where their characters differ.
pub open spec fn hamming(a: Seq<char>, b: Seq<char>) -> nat {
    mismatches(a, b, if a.len() <= b.len() {
        a.len()
    } else {
        b.len()
    })
}

/// Counts the positions where `str1` and `str2` differ, up to the end of the
/// shorter one.
pub fn hamming_distance(str1: &str, str2: &str) -> (r: usize)
    ensures
        r == hamming(str1@, str2@),
{
    let a = chars_of(str1);
    let b = chars_of(str2);
    let n = if a.len() <= b.len() {
        a.len()
    } else {
        b.len()
    };
    let mut count: usize = 0;
    let mut i: usize = 0;
    while i < n
        invariant
            i <= n <= a@.len(),
            n <= b@.len(),
            n == if a@.len() <= b@.len() {
                a@.len()
            } else {
                b@.len()
            },
            a@ == str1@,
            b@ == str2@,
            count == mismatches(a@, b@, i as nat),
            count <= i,
        decreases n - i,
    {
        if a[i] != b[i] {
            count = count + 1;
        }
        i = i + 1;
    }
    count
}

/// Hands out the lines of a list two at a time; a last unpaired line is dropped.
pub struct Pairer {
    items: Vec<String>,
    pos: usize,
}

impl View for Pairer {
    type V = Seq<String>;

    /// The lines not handed out yet.
    closed spec fn view(&self) -> Seq<String> {
        self.items@.subrange(self.pos as int, self.items@.len() as int)
    }
}

impl Pairer {
    pub closed spec fn wf(&self) -> bool {
        self.pos <= self.items@.len()
    }

    /// A pairer over `items`.
    pub fn new(items: Vec<String>) -> (r: Pairer)
        ensures
            r.wf(),
            r@ == items@,
    {
        let r = Pairer { items, pos: 0 };
        assert(r@ =~= r.items@);
        r
    }

    /// The next two lines, or `None` when fewer than two are left (which are
    /// then dropped).
    pub fn next(&mut self) -> (r: Option<(String, String)>)
        requires
            old(self).wf(),
        ensures
            final(self).wf(),
            old(self)@.len() >= 2 ==> r == Some((old(self)@[0], old(self)@[1])) && final(self)@
                == old(self)@.subrange(2, old(self)@.len() as int),
            old(self)@.len() < 2 ==> r is None && final(self)@.len() == 0,
    {
        let len = self.items.len();
        if len - self.pos >= 2 {
            let first = self.items[self.pos].clone();
            let second = self.items[self.pos + 1].clone();
            self.pos = self.pos + 2;
            assert(self@ =~= old(self)@.subrange(2, old(self)@.len() as int));
            Some((first, second))
        } else {
            self.pos = len;
            None
        }
    }
}

} // verus!
