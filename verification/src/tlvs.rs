//! Tags, values, records and the container capability.

pub mod container;
pub mod owned;
pub mod tag;

pub use container::TlvContainer;
pub use tag::TlvTag;
