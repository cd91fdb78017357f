//! Timer/interrupt-controller stub: reads return zero, writes are no-ops.
//! Real interrupt delivery is out of scope for this engine.

use crate::exception::Exception;
use vstd::prelude::*;

verus! {

/// The stub timer/interrupt controller. It holds no state.
pub struct Clint {}

impl Clint {
    pub fn new() -> (r: Clint) {
        Clint {  }
    }

    /// Reads return zero at every offset and width.
    pub fn read(&self, _addr: u64, _size: u8) -> (r: Result<u64, Exception>)
        ensures
            r == Result::<u64, Exception>::Ok(0u64),
    {
        Ok(0)
    }

    /// Writes are accepted and discarded.
    pub fn write(&self, _addr: u64, _value: u64, _size: u8) -> (r: Result<(), Exception>)
        ensures
            r == Result::<(), Exception>::Ok(()),
    {
        Ok(())
    }
}

} // verus!
