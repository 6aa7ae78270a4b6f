//! A small feed-forward neural network that learns the two-input
//! exclusive-or function by gradient descent.
//!
//! Every scalar the network works with is a 64-bit IEEE 754 value carried
//! as its bit pattern in a `u64`, so the arithmetic itself can be delegated
//! to a software floating-point implementation behind a small set of
//! trusted wrappers while all of the surrounding logic is verified.

pub mod fp;
pub mod laws;
pub mod network;

pub use network::Network;
