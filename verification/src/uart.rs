//! Console sink: a write-only byte output device.
//!
//! The engine itself performs no I/O; a byte written to the device's
//! first cell is appended to an output buffer, which the surrounding
//! driver drains and displays.

use crate::exception::Exception;
use vstd::prelude::*;

verus! {

/// The console device. Reads return zero; a write to local offset 0
/// emits the low byte of the value.
pub struct Uart {
    out: Vec<u8>,
}

impl View for Uart {
    type V = Seq<u8>;

    closed spec fn view(&self) -> Seq<u8> {
        self.out@
    }
}

impl Uart {
    /// Starts with no buffered output.
    pub fn new() -> (r: Uart)
        ensures
            r@ == Seq::<u8>::empty(),
    {
        Uart { out: Vec::new() }
    }

    /// Reads return zero at every offset and width.
    pub fn read(&self, _addr: u64, _size: u8) -> (r: Result<u64, Exception>)
        ensures
            r == Result::<u64, Exception>::Ok(0u64),
    {
        Ok(0)
    }

    /// A write to local offset 0 emits the low byte of `value`; writes
    /// elsewhere are ignored. Writes always succeed.
    pub fn write(&mut self, addr: u64, value: u64, _size: u8) -> (r: Result<(), Exception>)
        ensures
            r == Result::<(), Exception>::Ok(()),
            final(self)@ == if addr == 0 {
                old(self)@.push((value % 0x100) as u8)
            } else {
                old(self)@
            },
    {
        if addr == 0 {
            self.out.push((value % 0x100) as u8);
        }
        Ok(())
    }

    /// Hands out the bytes emitted since the last call and clears the
    /// buffer.
    pub fn take_output(&mut self) -> (r: Vec<u8>)
        ensures
            r@ == old(self)@,
            final(self)@ == Seq::<u8>::empty(),
    {
        let r = self.out.split_off(0);
        proof {
            assert(r@ =~= old(self)@);
            assert(self.out@ =~= Seq::<u8>::empty());
        }
        r
    }
}

} // verus!
