//! A string of bytes of any length and content.

use vstd::prelude::*;

verus! {

/// A string of bytes without terminator and without any rule on its length
/// or content.
#[derive(Debug, Clone, PartialEq, Eq, Hash, PartialOrd, Ord)]
pub struct AnyOctetString {
    bytes: Vec<u8>,
}

impl View for AnyOctetString {
    type V = Seq<u8>;

    closed spec fn view(&self) -> Seq<u8> {
        self.bytes@
    }
}

impl Default for AnyOctetString {
    fn default() -> (octets: Self)
        ensures
            octets@ == Seq::<u8>::empty(),
    {
        Self::new(Vec::new())
    }
}

impl AnyOctetString {
    /// The octet string that holds `bytes`.
    pub fn new(bytes: Vec<u8>) -> (octets: Self)
        ensures
            octets@ == bytes@,
    {
        Self { bytes }
    }

    /// The bytes held.
    pub fn bytes(&self) -> (bytes: &[u8])
        ensures
            bytes@ == self@,
    {
        self.bytes.as_slice()
    }

    /// The number of bytes this takes on the wire.
    pub fn length(&self) -> (length: usize)
        ensures
            length == self@.len(),
    {
        self.bytes.len()
    }
}

} // verus!
