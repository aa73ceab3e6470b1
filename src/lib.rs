//! A streaming hash abstraction with fixed-size digests, and a BLAKE2b
//! implementation of it at 32-byte and 64-byte output sizes.
pub mod digest;
pub mod blake2b;
pub mod hasher;

pub use digest::Digest;
pub use hasher::Hasher;
pub use blake2b::{Blake2b256, Blake2b512, Blake2bHasher};
