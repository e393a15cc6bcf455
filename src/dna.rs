//! Counting how often each character occurs in a string.
use crate::text::{chars_of, push_char};
use vstd::prelude::*;

verus! {

/// The number of occurrences of `c` in `s`.
pub open spec fn count_of(s: Seq<char>, c: char) -> nat
    decreases s.len(),
{
    if s.len() == 0 {
        0
    } else {
        count_of(s.drop_last(), c) + if s.last() == c {
            1nat
        } else {
            0nat
        }
    }
}

/// A character never occurs more often than the string is long, and does not
/// occur at all in a string that does not hold it.
pub proof fn lemma_count_of_bounds(s: Seq<char>, c: char)
    ensures
        count_of(s, c) <= s.len(),
        !s.contains(c) ==> count_of(s, c) == 0,
    decreases s.len(),
{
    if s.len() > 0 {
        lemma_count_of_bounds(s.drop_last(), c);
        if !s.contains(c) {
            assert forall|i: int| 0 <= i < s.drop_last().len() implies s.drop_last()[i] != c by {
                assert(s[i] == s.drop_last()[i]);
            }
            assert(s[s.len() - 1] != c);
        }
    }
}

/// The counting table of `s`: each character of `s` once, with the number of
/// times it occurs, and nothing else.
pub open spec fn is_count_table(s: Seq<char>, t: Seq<(char, u32)>) -> bool {
    &&& forall|k: int| 0 <= k < t.len() ==> #[trigger] t[k].1 == count_of(s, t[k].0)
    &&& forall|k: int, l: int| 0 <= k < l < t.len() ==> #[trigger] t[k].0 != #[trigger] t[l].0
    &&& forall|c: char| s.contains(c) <==> exists|k: int| 0 <= k < t.len() && #[trigger] t[k].0 == c
}

/// The decimal digit character of `d < 10`.
pub open spec fn digit_char(d: nat) -> char {
    if d == 0 {
        '0'
    } else if d == 1 {
        '1'
    } else if d == 2 {
        '2'
    } else if d == 3 {
        '3'
    } else if d == 4 {
        '4'
    } else if d == 5 {
        '5'
    } else if d == 6 {
        '6'
    } else if d == 7 {
        '7'
    } else if d == 8 {
        '8'
    } else {
        '9'
    }
}

/// The decimal notation of `n`, without leading zeros.
pub open spec fn decimal(n: nat) -> Seq<char>
    decreases n,
{
    if n < 10 {
        seq![digit_char(n)]
    } else {
        decimal(n / 10).push(digit_char(n % 10))
    }
}

/// The counts in `s` of the characters of `bases`, in decimal, separated by
/// single spaces.
pub open spec fn counts_line(s: Seq<char>, bases: Seq<char>) -> Seq<char>
    decreases bases.len(),
{
    if bases.len() == 0 {
        Seq::empty()
    } else if bases.len() == 1 {
        decimal(count_of(s, bases[0]))
    } else {
        counts_line(s, bases.drop_last()) + seq![' '] + decimal(count_of(s, bases.last()))
    }
}

/// How often each character occurs in `input`: one entry per distinct
/// character, in the order of first appearance.
pub fn count_occurrences(input: &str) -> (r: Vec<(char, u32)>)
    requires
        input@.len() <= u32::MAX,
    ensures
        is_count_table(input@, r@),
{
    let chars = chars_of(input);
    let mut table: Vec<(char, u32)> = Vec::new();
    let mut i: usize = 0;
    while i < chars.len()
        invariant
            i <= chars@.len() <= u32::MAX,
            chars@ == input@,
            is_count_table(chars@.subrange(0, i as int), table@),
        decreases chars.len() - i,
    {
        let c = chars[i];
        let ghost pre = chars@.subrange(0, i as int);
        let ghost post = chars@.subrange(0, i + 1);
        assert(post.drop_last() =~= pre);
        assert(post.last() == c);
        assert forall|x: char| post.contains(x) <==> (pre.contains(x) || x == c) by {
            if post.contains(x) {
                let j = choose|j: int| 0 <= j < post.len() && post[j] == x;
                if j < pre.len() {
                    assert(pre[j] == x);
                }
            }
            if pre.contains(x) {
                let j = choose|j: int| 0 <= j < pre.len() && pre[j] == x;
                assert(post[j] == x);
            }
            if x == c {
                assert(post[i as int] == x);
            }
        }
        let mut k: usize = 0;
        while k < table.len() && table[k].0 != c
            invariant
                k <= table@.len(),
                forall|l: int| 0 <= l < k ==> table@[l].0 != c,
            decreases table.len() - k,
        {
            k = k + 1;
        }
        if k < table.len() {
            proof {
                lemma_count_of_bounds(pre, c);
            }
            let n = table[k].1;
            let ghost old_table = table@;
            table.set(k, (c, n + 1));
            assert forall|l: int| 0 <= l < table@.len() implies #[trigger] table@[l].1 == count_of(
                post,
                table@[l].0,
            ) by {
                assert(count_of(post, table@[l].0) == count_of(pre, table@[l].0) + if table@[l].0
                    == c {
                    1nat
                } else {
                    0nat
                });
                if l != k {
                    assert(table@[l] == old_table[l]);
                }
            }
            assert forall|x: char| post.contains(x) <==> exists|m: int|
                0 <= m < table@.len() && #[trigger] table@[m].0 == x by {
                if pre.contains(x) {
                    let m = choose|m: int| 0 <= m < old_table.len() && #[trigger] old_table[m].0 == x;
                    assert(table@[m].0 == x);
                }
                if exists|m: int| 0 <= m < table@.len() && #[trigger] table@[m].0 == x {
                    let m = choose|m: int| 0 <= m < table@.len() && #[trigger] table@[m].0 == x;
                    assert(old_table[m].0 == x);
                }
            }
        } else {
            proof {
                lemma_count_of_bounds(pre, c);
                assert(!pre.contains(c));
            }
            let ghost old_table = table@;
            table.push((c, 1));
            assert forall|l: int| 0 <= l < table@.len() implies #[trigger] table@[l].1 == count_of(
                post,
                table@[l].0,
            ) by {
                assert(count_of(post, table@[l].0) == count_of(pre, table@[l].0) + if table@[l].0
                    == c {
                    1nat
                } else {
                    0nat
                });
                if l < old_table.len() {
                    assert(table@[l] == old_table[l]);
                }
            }
            assert forall|x: char| post.contains(x) <==> exists|m: int|
                0 <= m < table@.len() && #[trigger] table@[m].0 == x by {
                if pre.contains(x) {
                    let m = choose|m: int| 0 <= m < old_table.len() && #[trigger] old_table[m].0 == x;
                    assert(table@[m].0 == x);
                }
                if x == c {
                    assert(table@[old_table.len() as int].0 == x);
                }
                if exists|m: int| 0 <= m < table@.len() && #[trigger] table@[m].0 == x {
                    let m = choose|m: int| 0 <= m < table@.len() && #[trigger] table@[m].0 == x;
                    if m < old_table.len() {
                        assert(old_table[m].0 == x);
                    }
                }
            }
        }
        i = i + 1;
    }
    assert(chars@.subrange(0, i as int) =~= chars@);
    table
}

/// Looks `c` up in a counting table of `s`.
fn count_in_table(table: &Vec<(char, u32)>, c: char) -> (r: u32)
    requires
        exists|s: Seq<char>| is_count_table(s, table@),
    ensures
        forall|s: Seq<char>| is_count_table(s, table@) ==> r == count_of(s, c),
{
    let mut k: usize = 0;
    while k < table.len()
        invariant
            k <= table@.len(),
            forall|l: int| 0 <= l < k ==> table@[l].0 != c,
        decreases table.len() - k,
    {
        if table[k].0 == c {
            return table[k].1;
        }
        k = k + 1;
    }
    proof {
        assert forall|s: Seq<char>| is_count_table(s, table@) implies count_of(s, c) == 0 by {
            lemma_count_of_bounds(s, c);
        }
    }
    0
}

/// Appends the decimal notation of `n`.
fn push_decimal(out: &mut String, n: u32)
    ensures
        final(out)@ == old(out)@ + decimal(n as nat),
    decreases n,
{
    if n >= 10 {
        push_decimal(out, n / 10);
    }
    let d = n % 10;
    let c = match d {
        0 => '0',
        1 => '1',
        2 => '2',
        3 => '3',
        4 => '4',
        5 => '5',
        6 => '6',
        7 => '7',
        8 => '8',
        _ => '9',
    };
    push_char(out, c);
    assert(final(out)@ =~= old(out)@ + decimal(n as nat));
}

/// The counts in `input` of each character of `bases`, in decimal and
/// separated by single spaces.
pub fn fmt_nucleotide_occurrences(input: &str, bases: &[char]) -> (r: String)
    requires
        input@.len() <= u32::MAX,
    ensures
        r@ == counts_line(input@, bases@),
{
    let freq = count_occurrences(input);
    let mut out = String::new();
    let mut i: usize = 0;
    while i < bases.len()
        invariant
            i <= bases@.len(),
            is_count_table(input@, freq@),
            out@ == counts_line(input@, bases@.subrange(0, i as int)),
        decreases bases.len() - i,
    {
        let n = count_in_table(&freq, bases[i]);
        assert(bases@.subrange(0, i + 1).drop_last() =~= bases@.subrange(0, i as int));
        if i > 0 {
            push_char(&mut out, ' ');
        }
        push_decimal(&mut out, n);
        i = i + 1;
    }
    assert(bases@.subrange(0, i as int) =~= bases@);
    out
}

} // verus!
