//! Byte-level building blocks: octet strings and big-endian integers.

pub mod any_octet_string;
pub mod big_endian;

pub use any_octet_string::AnyOctetString;
