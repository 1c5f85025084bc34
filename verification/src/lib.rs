//! Domain-separated BLS signing and verification for builder and proposer
//! messages of a proof-of-stake chain.

pub mod chain;
pub mod constants;
pub mod error;
pub mod hashing;
pub mod response;
pub mod signature;
pub mod utils;
