//! User-side standard output.
//!
//! In user space, printing formats into a string and hands it to the write
//! system call on the standard-output descriptor. The handle here records
//! what was sent; the system call itself is the kernel's side of the
//! story.

use vstd::prelude::*;
use vstd::string::*;

verus! {

/// User-side handle to standard output: everything handed to the write
/// system call on descriptor 1, in order.
pub struct StdIO {
    /// Characters sent so far.
    pub sent: Vec<char>,
}

impl StdIO {
    /// A fresh handle that has sent nothing.
    pub fn new() -> (r: StdIO)
        ensures
            r.sent@ == Seq::<char>::empty(),
    {
        StdIO { sent: Vec::new() }
    }

    /// Hand a string to the write system call on standard output: every
    /// character goes out, in order, and the write never fails.
    pub fn write_str(&mut self, out: &str) -> (r: Result<(), ()>)
        ensures
            r is Ok,
            final(self).sent@ == old(self).sent@ + out@,
    {
        let n = out.unicode_len();
        let mut i: usize = 0;
        while i < n
            invariant
                n == out@.len(),
                i <= n,
                self.sent@ == old(self).sent@ + out@.subrange(0, i as int),
            decreases n - i,
        {
            let c = out.get_char(i);
            self.sent.push(c);
            proof {
                assert(self.sent@ =~= old(self).sent@ + out@.subrange(0, i + 1));
            }
            i += 1;
        }
        proof {
            assert(old(self).sent@ + out@.subrange(0, out@.len() as int)
                =~= old(self).sent@ + out@);
        }
        Ok(())
    }
}

/// Print a formatted message on standard output.
pub fn _print(io: &mut StdIO, args: &str)
    ensures
        final(io).sent@ == old(io).sent@ + args@,
{
    let _r = io.write_str(args);
}

} // verus!
