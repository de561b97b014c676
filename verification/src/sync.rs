//! Shims of `std::sync`.
pub mod atomic;
