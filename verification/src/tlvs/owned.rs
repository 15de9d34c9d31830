//! Records and values that own their bytes.

pub mod tlv;
pub mod value;

pub use tlv::{Tlv, TlvView};
pub use value::{TlvValue, TlvValueView};
