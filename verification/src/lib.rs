//! A password recorder for archive files: a file is identified by the pair
//! (BLAKE2b-512 digest of its contents, byte size), and passwords saved for
//! that identity can be recovered later, independent of the file's path.

pub mod cli;
pub mod digits;
pub mod encoding;
pub mod fingerprint;
pub mod store;
pub mod timestamp;
