//! The named genetic codes, indexed by codon index (bases ordered T, C, A, G).
use super::TranslatedCodon::{A, C, D, E, F, G, H, I, K, L, M, N, P, Q, R, S, Stop, T, V, W, Y};
use super::{TranslatedCodon, TranslationTable};
use vstd::prelude::*;

verus! {

/// The standard genetic code.
pub open spec fn standard_code() -> Seq<TranslatedCodon> {
    seq![
        F, F, L, L, S, S, S, S, Y, Y, Stop, Stop, C, C, Stop, W,
        L, L, L, L, P, P, P, P, H, H, Q, Q, R, R, R, R,
        I, I, I, M, T, T, T, T, N, N, K, K, S, S, R, R,
        V, V, V, V, A, A, A, A, D, D, E, E, G, G, G, G,
    ]
}

/// The vertebrate mitochondrial code.
pub open spec fn vertebrate_mitochondrial_code() -> Seq<TranslatedCodon> {
    seq![
        F, F, L, L, S, S, S, S, Y, Y, Stop, Stop, C, C, W, W,
        L, L, L, L, P, P, P, P, H, H, Q, Q, R, R, R, R,
        I, I, M, M, T, T, T, T, N, N, K, K, S, S, Stop, Stop,
        V, V, V, V, A, A, A, A, D, D, E, E, G, G, G, G,
    ]
}

/// The standard genetic code as a table.
pub fn standard() -> (r: TranslationTable)
    ensures
        r@ == standard_code(),
{
    let t = TranslationTable::from_symbols(
        [
            F, F, L, L, S, S, S, S, Y, Y, Stop, Stop, C, C, Stop, W,
            L, L, L, L, P, P, P, P, H, H, Q, Q, R, R, R, R,
            I, I, I, M, T, T, T, T, N, N, K, K, S, S, R, R,
            V, V, V, V, A, A, A, A, D, D, E, E, G, G, G, G,
        ],
    );
    assert(t@ =~= standard_code());
    t
}

/// The vertebrate mitochondrial code as a table.
pub fn vertebrate_mitochondrial() -> (r: TranslationTable)
    ensures
        r@ == vertebrate_mitochondrial_code(),
{
    let t = TranslationTable::from_symbols(
        [
            F, F, L, L, S, S, S, S, Y, Y, Stop, Stop, C, C, W, W,
            L, L, L, L, P, P, P, P, H, H, Q, Q, R, R, R, R,
            I, I, M, M, T, T, T, T, N, N, K, K, S, S, Stop, Stop,
            V, V, V, V, A, A, A, A, D, D, E, E, G, G, G, G,
        ],
    );
    assert(t@ =~= vertebrate_mitochondrial_code());
    t
}

} // verus!
