//! Optional parameters (TLVs) of SMPP protocol data units.
//!
//! A TLV is a 16-bit tag, a 16-bit length and that many bytes of value. This
//! crate models the records, the typed and the raw (vendor) values they carry,
//! and the operations by which a PDU holds, finds and removes them.
//!
//! Every function of the crate carries a contract that Verus proves. What is
//! assumed of the standard library, and not proved, stands in
//! [`std_assumptions`].

pub mod pdus;
pub mod std_assumptions;
pub mod tlvs;
pub mod types;
