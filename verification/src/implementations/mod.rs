//! The shops' algorithms, one module each, and what they share.

pub mod geodes;
pub mod joja;
pub mod krobus;
pub mod sandy;
pub mod traveling_cart;
pub mod util;
