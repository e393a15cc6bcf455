//! Mendelian inheritance: the chance that two random mates from a population
//! produce offspring with the dominant phenotype.
use vstd::prelude::*;

verus! {

/// Weighted count of ordered mating pairs whose offspring shows the dominant
/// phenotype, each pair weighted by the number of its four allele
/// combinations that do, for `k` homozygous dominant, `m` heterozygous and `n`
/// homozygous recessive individuals.
pub open spec fn dominant_outcomes(k: int, m: int, n: int) -> int {
    4 * (k * (k - 1)) + 4 * (2 * k * m) + 4 * (2 * k * n) + 3 * (m * (m - 1)) + 2 * (2 * m * n)
}

/// All ordered mating pairs, times the four allele combinations of each.
pub open spec fn all_outcomes(k: int, m: int, n: int) -> int {
    4 * (k + m + n) * (k + m + n - 1)
}

/// The dominant-phenotype probability as a fraction: `(dominant_outcomes,
/// all_outcomes)`.
pub fn dominant_phenotype_fraction(k: usize, m: usize, n: usize) -> (r: (usize, usize))
    requires
        4 * (k + m + n) * (k + m + n) <= usize::MAX,
    ensures
        r.0 == dominant_outcomes(k as int, m as int, n as int),
        r.1 == all_outcomes(k as int, m as int, n as int),
{
    assert(k + m + n <= usize::MAX) by (nonlinear_arith)
        requires
            4 * (k + m + n) * (k + m + n) <= usize::MAX,
    ;
    let total = k + m + n;
    assert(4 * total * total <= usize::MAX);
    assert(k * k <= total * total && m * m <= total * total && k * m <= total * total && k * n
        <= total * total && m * n <= total * total) by (nonlinear_arith)
        requires
            total == k + m + n,
    ;
    let possibility_total = if total == 0 {
        0
    } else {
        assert(4 * total <= 4 * total * total && 4 * total * (total - 1) <= 4 * total * total)
            by (nonlinear_arith)
            requires
                total >= 1,
        ;
        4 * total * (total - 1)
    };
    let dom_vs_dom = if k == 0 {
        0
    } else {
        assert(k * (k - 1) <= k * k && k * k <= usize::MAX) by (nonlinear_arith)
            requires
                k >= 1,
                k * k <= total * total,
                4 * total * total <= usize::MAX,
        ;
        k * (k - 1)
    };
    let het_vs_het = if m == 0 {
        0
    } else {
        assert(m * (m - 1) <= m * m && m * m <= usize::MAX) by (nonlinear_arith)
            requires
                m >= 1,
                m * m <= total * total,
                4 * total * total <= usize::MAX,
        ;
        m * (m - 1)
    };
    assert(2 * k * m <= 4 * total * total && 2 * k <= 4 * total * total) by (nonlinear_arith)
        requires
            total == k + m + n,
    ;
    assert(2 * k * n <= 4 * total * total) by (nonlinear_arith)
        requires
            total == k + m + n,
    ;
    assert(2 * m * n <= 4 * total * total && 2 * m <= 4 * total * total) by (nonlinear_arith)
        requires
            total == k + m + n,
    ;
    let dom_vs_het = 2 * k * m;
    let dom_vs_rec = 2 * k * n;
    let het_vs_rec = 2 * m * n;
    assert(4 * dom_vs_dom + 4 * dom_vs_het + 4 * dom_vs_rec + 3 * het_vs_het + 2 * het_vs_rec <= 4
        * total * total) by (nonlinear_arith)
        requires
            total == k + m + n,
            dom_vs_dom <= k * k,
            het_vs_het <= m * m,
            dom_vs_het == 2 * k * m,
            dom_vs_rec == 2 * k * n,
            het_vs_rec == 2 * m * n,
    ;
    let dom_pheno_total = 4 * dom_vs_dom + 4 * dom_vs_het + 4 * dom_vs_rec + 3 * het_vs_het + 2
        * het_vs_rec;
    (dom_pheno_total, possibility_total)
}

} // verus!
