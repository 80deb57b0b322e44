//! Model of the byte-oriented serial console device.
//!
//! The physical device is an external collaborator reached over
//! memory-mapped registers; this module models the narrow interface the
//! kernel consumes: one byte out of the receive queue at a time, bytes onto
//! the transmit side in order.

use vstd::prelude::*;

verus! {

/// Console device state: the bytes received and not yet read, and the
/// bytes written so far.
pub struct Uart {
    /// Received bytes awaiting the kernel, oldest first.
    pub input: Vec<u8>,
    /// Bytes the kernel has transmitted, in order.
    pub output: Vec<u8>,
}

impl Uart {
    /// A device with nothing received and nothing transmitted.
    pub fn new() -> (r: Uart)
        ensures
            r.input@ == Seq::<u8>::empty(),
            r.output@ == Seq::<u8>::empty(),
    {
        Uart { input: Vec::new(), output: Vec::new() }
    }

    /// Take the oldest received byte, or learn that none is waiting.
    pub fn get(&mut self) -> (r: Option<u8>)
        ensures
            final(self).output@ == old(self).output@,
            old(self).input@.len() == 0 ==> r is None && final(self).input@ == old(self).input@,
            old(self).input@.len() > 0 ==> r == Some(old(self).input@[0])
                && final(self).input@ == old(self).input@.drop_first(),
    {
        if self.input.len() == 0 {
            None
        } else {
            let b = self.input.remove(0);
            assert(self.input@ =~= old(self).input@.drop_first());
            Some(b)
        }
    }

    /// Transmit one byte.
    pub fn put(&mut self, b: u8)
        ensures
            final(self).input@ == old(self).input@,
            final(self).output@ == old(self).output@.push(b),
    {
        self.output.push(b);
    }
}

} // verus!
