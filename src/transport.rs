//! Framing of register transactions on the bus.

use vstd::prelude::*;

verus! {

/// A register transaction that cannot be sent.
#[derive(Clone, Copy, Debug, PartialEq, Eq, Structural)]
pub enum TransportError {
    /// Address and payload exceed the transaction size.
    TooLarge,
    /// A buffered transfer moved fewer bytes than asked.
    ShortTransfer,
}

/// The bytes of one combined address-and-payload write: the register
/// address, then the payload. Refused when they exceed `max_size`.
pub fn write_frame(reg: u8, data: &[u8], max_size: usize) -> (r: Result<Vec<u8>, TransportError>)
    ensures
        r is Ok <==> data@.len() + 1 <= max_size,
        r is Ok ==> r->Ok_0@ == seq![reg] + data@,
        r is Err ==> r->Err_0 == TransportError::TooLarge,
{
    if data.len() >= max_size {
        return Err(TransportError::TooLarge);
    }
    let mut buf: Vec<u8> = Vec::new();
    buf.push(reg);
    let mut i: usize = 0;
    while i < data.len()
        invariant
            i <= data@.len(),
            buf@ == seq![reg] + data@.subrange(0, i as int),
        decreases data@.len() - i,
    {
        buf.push(data[i]);
        i = i + 1;
        assert(data@.subrange(0, i as int) == data@.subrange(0, i - 1) + seq![data@[i - 1]]);
    }
    assert(data@.subrange(0, data@.len() as int) == data@);
    Ok(buf)
}

/// Checks that a buffered transfer of `wanted` bytes moved all of them.
pub fn check_transfer(wanted: usize, done: usize) -> (r: Result<(), TransportError>)
    ensures
        r is Ok <==> done == wanted,
        r is Err ==> r->Err_0 == TransportError::ShortTransfer,
{
    if done == wanted {
        Ok(())
    } else {
        Err(TransportError::ShortTransfer)
    }
}

} // verus!
