//! Tripcodes: a salted, deliberately slow DES-derived digest of a password,
//! and the pieces of a parallel search for passwords whose digest holds a
//! chosen pattern.

pub mod cipher;
pub mod digest;
pub mod encode;
pub mod key;
pub mod salt;
pub mod search;
pub mod tables;

pub use digest::trip;
