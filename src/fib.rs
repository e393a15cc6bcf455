//! Rabbit populations under a Fibonacci-style recurrence: each mature pair
//! produces `k` new pairs per generation.
use vstd::prelude::*;

verus! {

/// The number of pairs in generation `n` with litters of `k` pairs:
/// 0, 1, then each generation adds `k` times the one two steps back.
pub open spec fn population(n: nat, k: nat) -> nat
    decreases n,
{
    if n == 0 {
        0
    } else if n == 1 {
        1
    } else {
        population((n - 1) as nat, k) + k * population((n - 2) as nat, k)
    }
}

/// Populations never shrink from one generation to a later one.
pub proof fn lemma_population_monotone(i: nat, j: nat, k: nat)
    requires
        i <= j,
    ensures
        population(i, k) <= population(j, k),
    decreases j - i,
{
    if i < j {
        lemma_population_monotone(i, (j - 1) as nat, k);
        if j >= 2 {
            assert(k * population((j - 2) as nat, k) >= 0) by (nonlinear_arith);
        }
    }
}

/// Two consecutive generations of the recurrence.
struct Rabbits {
    k: usize,
    generation: usize,
    next_pops: (usize, usize),
}

impl Rabbits {
    spec fn wf(&self) -> bool {
        &&& self.next_pops.0 == population(self.generation as nat, self.k as nat)
        &&& self.next_pops.1 == population((self.generation + 1) as nat, self.k as nat)
    }

    fn new(k: usize) -> (r: Rabbits)
        ensures
            r.wf(),
            r.k == k,
            r.generation == 0,
    {
        Rabbits { k, generation: 0, next_pops: (0, 1) }
    }

    /// Moves one generation on; `false`, with nothing changed, when the
    /// generation after the new one does not fit in a `usize`.
    fn step(&mut self) -> (r: bool)
        requires
            old(self).wf(),
            old(self).generation < usize::MAX,
        ensures
            final(self).wf(),
            final(self).k == old(self).k,
            r ==> final(self).generation == old(self).generation + 1,
            !r ==> final(self).generation == old(self).generation && population(
                (old(self).generation + 2) as nat,
                old(self).k as nat,
            ) > usize::MAX,
    {
        let (prev, cur) = self.next_pops;
        match prev.checked_mul(self.k) {
            Some(litter) => match cur.checked_add(litter) {
                Some(next) => {
                    assert(prev * self.k == self.k * prev) by (nonlinear_arith);
                    self.next_pops = (cur, next);
                    self.generation = self.generation + 1;
                    true
                },
                None => {
                    assert(prev * self.k == self.k * prev) by (nonlinear_arith);
                    false
                },
            },
            None => {
                assert(prev * self.k == self.k * prev) by (nonlinear_arith);
                assert(self.k * prev <= population((self.generation + 2) as nat, self.k as nat));
                false
            },
        }
    }
}

/// The population of generation `n`, or `None` when it does not fit in a `usize`.
pub fn checked_rabbit_population(n: usize, k: usize) -> (r: Option<usize>)
    ensures
        population(n as nat, k as nat) <= usize::MAX ==> r == Some(
            population(n as nat, k as nat) as usize,
        ),
        population(n as nat, k as nat) > usize::MAX ==> r is None,
{
    if n == 0 {
        return Some(0);
    }
    let mut rabbits = Rabbits::new(k);
    while rabbits.generation + 1 < n
        invariant
            rabbits.wf(),
            rabbits.k == k,
            rabbits.generation < n,
        decreases n - rabbits.generation,
    {
        if !rabbits.step() {
            proof {
                lemma_population_monotone((rabbits.generation + 2) as nat, n as nat, k as nat);
            }
            return None;
        }
    }
    Some(rabbits.next_pops.1)
}

/// The population of generation `n` with litters of `k` pairs.
pub fn calculate_rabbit_population(n: usize, k: usize) -> (r: usize)
    requires
        population(n as nat, k as nat) <= usize::MAX,
    ensures
        r == population(n as nat, k as nat),
{
    match checked_rabbit_population(n, k) {
        Some(p) => p,
        None => 0,
    }
}

} // verus!
