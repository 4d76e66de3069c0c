//! A one-hash membership filter over a fixed vector of cells.
pub mod hashing;
pub mod filter;
pub mod laws;
