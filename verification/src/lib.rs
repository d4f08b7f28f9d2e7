//! A hash-linked ledger: blocks that each store the fingerprint of their
//! predecessor, and a chain that appends such blocks and checks the links.

pub mod block;
pub mod chain;
pub mod decimal;
pub mod digest;
pub mod laws;
pub mod sample;

pub use block::Block;
pub use chain::Chain;
pub use sample::generate_chain;
