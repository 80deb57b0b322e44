//! The file abstraction and the console device file.

use vstd::prelude::*;
use crate::uart::Uart;

verus! {

/// A byte-oriented file: a console, a filesystem file, a device, a pipe.
/// Reads fill a buffer from the front; writes take a buffer whole; both
/// report how many bytes moved.
pub trait File {
    /// Read into `content`, overwriting from the front, and return the
    /// number of bytes read.
    fn read(&mut self, content: &mut Vec<u8>) -> i32
        requires
            old(content)@.len() <= i32::MAX,
    ;

    /// Write `content` and return the number of bytes written.
    fn write(&mut self, content: &[u8]) -> i32
        requires
            content@.len() <= i32::MAX,
    ;
}

/// The console as a file: reads drain the serial device's receive queue,
/// writes append to its transmit side.
pub struct Console {
    /// The modeled serial device this console drives.
    pub uart: Uart,
}

impl Console {
    /// A console over a device with nothing received and nothing sent.
    pub fn new() -> (r: Console)
        ensures
            r.uart.input@ == Seq::<u8>::empty(),
            r.uart.output@ == Seq::<u8>::empty(),
    {
        Console { uart: Uart::new() }
    }
}

impl File for Console {
    /// Fill `content` from the device's receive queue until either the
    /// buffer or the queue runs out: the count returned is the smaller of
    /// the two lengths, the bytes land at the front of the buffer in queue
    /// order, the rest of the buffer is untouched, and the queue loses
    /// exactly the bytes read.
    fn read(&mut self, content: &mut Vec<u8>) -> (n: i32)
        ensures
            n as int == vstd::math::min(old(content)@.len() as int, old(self).uart.input@.len() as int),
            final(self).uart.output@ == old(self).uart.output@,
            final(self).uart.input@ == old(self).uart.input@.skip(n as int),
            final(content)@.len() == old(content)@.len(),
            forall|i: int| 0 <= i < n ==> final(content)@[i] == old(self).uart.input@[i],
            forall|i: int| n <= i < old(content)@.len() ==> final(content)@[i] == old(content)@[i],
    {
        let mut i: usize = 0;
        while i < content.len()
            invariant
                i <= content@.len(),
                content@.len() == old(content)@.len(),
                old(content)@.len() <= i32::MAX,
                i <= old(self).uart.input@.len(),
                self.uart.output@ == old(self).uart.output@,
                self.uart.input@ == old(self).uart.input@.skip(i as int),
                forall|j: int| 0 <= j < i ==> content@[j] == old(self).uart.input@[j],
                forall|j: int| i <= j < content@.len() ==> content@[j] == old(content)@[j],
            decreases content@.len() - i,
        {
            match self.uart.get() {
                Some(byte) => {
                    proof {
                        assert(old(self).uart.input@.skip(i as int).drop_first()
                            =~= old(self).uart.input@.skip(i + 1));
                        assert(old(self).uart.input@.skip(i as int)[0]
                            == old(self).uart.input@[i as int]);
                    }
                    content.set(i, byte);
                }
                None => {
                    return i as i32;
                }
            }
            i += 1;
        }
        content.len() as i32
    }

    /// Send `content` to the device whole, in order, and report its full
    /// length.
    fn write(&mut self, content: &[u8]) -> (n: i32)
        ensures
            n as int == content@.len(),
            final(self).uart.input@ == old(self).uart.input@,
            final(self).uart.output@ == old(self).uart.output@ + content@,
    {
        let mut i: usize = 0;
        while i < content.len()
            invariant
                i <= content@.len(),
                content@.len() <= i32::MAX,
                self.uart.input@ == old(self).uart.input@,
                self.uart.output@ == old(self).uart.output@ + content@.subrange(0, i as int),
            decreases content@.len() - i,
        {
            self.uart.put(content[i]);
            proof {
                assert(self.uart.output@
                    =~= old(self).uart.output@ + content@.subrange(0, i + 1));
            }
            i += 1;
        }
        proof {
            assert(old(self).uart.output@ + content@.subrange(0, content@.len() as int)
                =~= old(self).uart.output@ + content@);
        }
        content.len() as i32
    }
}

} // verus!
