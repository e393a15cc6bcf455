pub mod dna;
pub mod fib;
pub mod gc;
pub mod hamm;
pub mod io;
pub mod iprb;
pub mod prot;
pub mod revc;
pub mod rna;
pub mod seq;
pub mod text;
