//! The failure value that propagates out of a fetch/decode/execute step,
//! and its mapping to the numeric RISC-V trap cause codes.

use vstd::prelude::*;

verus! {

/// A failed fetch, decode, execute, or bus access. The illegal-instruction
/// variant carries a diagnostic label naming the rejected encoding; the
/// label is not part of the architectural state.
#[derive(Debug, PartialEq, Eq)]
pub enum Exception {
    IllegalInstruction(&'static str),
    LoadAddressMisaligned,
    LoadAccessFault,
    StoreAddressMisaligned,
    StoreAccessFault,
    ECallFromU,
    ECallFromS,
    ECallFromM,
    HardwareError,
}

/// The trap kind alone, without the diagnostic label: the
/// specification-level mirror of `Exception`. The step interpreter in
/// `step` reports faults as values of this type, so that contracts pin
/// down the kind of every failure while leaving the wording of diagnostic
/// labels open.
pub enum Fault {
    Illegal,
    LoadMisaligned,
    LoadAccess,
    StoreMisaligned,
    StoreAccess,
    ECallU,
    ECallS,
    ECallM,
    Hardware,
}

/// The trap kind of an exception value.
pub open spec fn fault_of(e: Exception) -> Fault {
    match e {
        Exception::IllegalInstruction(_) => Fault::Illegal,
        Exception::LoadAddressMisaligned => Fault::LoadMisaligned,
        Exception::LoadAccessFault => Fault::LoadAccess,
        Exception::StoreAddressMisaligned => Fault::StoreMisaligned,
        Exception::StoreAccessFault => Fault::StoreAccess,
        Exception::ECallFromU => Fault::ECallU,
        Exception::ECallFromS => Fault::ECallS,
        Exception::ECallFromM => Fault::ECallM,
        Exception::HardwareError => Fault::Hardware,
    }
}

/// The numeric RISC-V trap cause code written to the cause CSR when a
/// trap of this kind is delivered.
pub open spec fn cause_of(f: Fault) -> u64 {
    match f {
        Fault::Illegal => 2,
        Fault::LoadMisaligned => 4,
        Fault::LoadAccess => 5,
        Fault::StoreMisaligned => 6,
        Fault::StoreAccess => 7,
        Fault::ECallU => 8,
        Fault::ECallS => 9,
        Fault::ECallM => 11,
        Fault::Hardware => 19,
    }
}

/// Relates an executable result to a specification-level one: success with
/// equal values, or failure with the same trap kind.
pub open spec fn matches_fault<T>(r: Result<T, Exception>, s: Result<T, Fault>) -> bool {
    match (r, s) {
        (Ok(a), Ok(b)) => a == b,
        (Err(e), Err(f)) => fault_of(e) == f,
        _ => false,
    }
}

impl Exception {
    /// The trap cause code of this exception.
    pub fn to_code(&self) -> (code: u64)
        ensures
            code == cause_of(fault_of(*self)),
    {
        match self {
            Exception::IllegalInstruction(_) => 2,
            Exception::LoadAddressMisaligned => 4,
            Exception::LoadAccessFault => 5,
            Exception::StoreAddressMisaligned => 6,
            Exception::StoreAccessFault => 7,
            Exception::ECallFromU => 8,
            Exception::ECallFromS => 9,
            Exception::ECallFromM => 11,
            Exception::HardwareError => 19,
        }
    }
}

} // verus!
