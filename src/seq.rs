pub mod codon;
pub mod nuc;
pub mod translation;
