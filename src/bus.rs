use vstd::prelude::*;

use crate::register::{RecordingRegister, Register};

verus! {

/// Bus associated to peripheral control registers.
pub trait BusRegisters {
    type Enable: Register;

    type Reset: Register;
}

/// Access to the registers that enable, disable and reset the peripherals of a
/// bus.
///
/// `enable_register` and `reset_register` are the bus's two register views;
/// each accessor hands out the view that belongs to this bus and leaves the
/// other untouched.
pub trait BusOperations: BusRegisters {
    spec fn enable_register(&self) -> Self::Enable;

    spec fn reset_register(&self) -> Self::Reset;

    /// The register that gates the clocks of the bus's peripherals.
    fn enr(&mut self) -> (r: &mut Self::Enable)
        ensures
            *r == old(self).enable_register(),
            final(self).enable_register() == *final(r),
            final(self).reset_register() == old(self).reset_register(),
    ;

    /// The register that holds the bus's peripherals in reset.
    fn rstr(&mut self) -> (r: &mut Self::Reset)
        ensures
            *r == old(self).reset_register(),
            final(self).reset_register() == *final(r),
            final(self).enable_register() == old(self).enable_register(),
    ;
}

/// The control registers of one bus, held in memory.
pub struct RegisterBlock {
    pub enable: RecordingRegister,
    pub reset: RecordingRegister,
}

impl RegisterBlock {
    /// A block whose enable and reset registers hold the given words and have
    /// not been written yet.
    pub fn new(enable: u32, reset: u32) -> (r: Self)
        ensures
            r.enable.bits() == enable,
            r.enable.writes() == Seq::<u32>::empty(),
            r.reset.bits() == reset,
            r.reset.writes() == Seq::<u32>::empty(),
    {
        RegisterBlock { enable: RecordingRegister::new(enable), reset: RecordingRegister::new(reset) }
    }
}

impl BusRegisters for RegisterBlock {
    type Enable = RecordingRegister;

    type Reset = RecordingRegister;
}

impl BusOperations for RegisterBlock {
    open spec fn enable_register(&self) -> RecordingRegister {
        self.enable
    }

    open spec fn reset_register(&self) -> RecordingRegister {
        self.reset
    }

    fn enr(&mut self) -> (r: &mut RecordingRegister) {
        &mut self.enable
    }

    fn rstr(&mut self) -> (r: &mut RecordingRegister) {
        &mut self.reset
    }
}

} // verus!
