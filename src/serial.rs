//! The device serial number, taken from its MAC address.

use vstd::prelude::*;

verus! {

/// Lowercase hex digits.
pub open spec fn hex_digits() -> Seq<char> {
    seq!['0', '1', '2', '3', '4', '5', '6', '7', '8', '9', 'a', 'b', 'c', 'd', 'e', 'f']
}

/// Two lowercase hex digits per byte, high nibble first.
pub open spec fn hex_of(b: Seq<u8>) -> Seq<char>
    decreases b.len(),
{
    if b.len() == 0 {
        Seq::empty()
    } else {
        seq![hex_digits()[(b[0] / 16) as int], hex_digits()[(b[0] % 16) as int]] + hex_of(b.drop_first())
    }
}

/// Relies on `hex::encode`: two lowercase hex digits per byte, high nibble first.
#[verifier::external_body]
fn encode_hex(b: &[u8]) -> (r: String)
    ensures
        r@ == hex_of(b@),
{
    hex::encode(b)
}

/// Six bytes that identify the device.
#[derive(Clone, Copy, Debug, PartialEq, Eq)]
pub struct SerialNumber(pub [u8; 6]);

impl SerialNumber {
    /// The serial number as twelve lowercase hex digits.
    pub fn to_hex(&self) -> (r: String)
        ensures
            r@ == hex_of(self.0@),
    {
        encode_hex(self.0.as_slice())
    }
}

} // verus!
