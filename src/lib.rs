//! Per-base nucleotide counting over genomic intervals, strand resolution of
//! mismatch records and combinable editing statistics.

pub mod buffers;
pub mod counter;
pub mod dna;
pub mod editing;
pub mod filters;
pub mod freq;
pub mod hooks;
pub mod mismatches;
pub mod output;
pub mod reads;
pub mod refpred;
pub mod run;
pub mod sites;
pub mod stats;
pub mod strand;
pub mod stranding;
pub mod summary;
pub mod validate;
