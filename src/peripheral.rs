use vstd::prelude::*;

use core::marker::PhantomData;

use crate::bus::BusOperations;
use crate::register::{clear_bit, set_bit, Register};

verus! {

/// The binding of one peripheral to its bus `B`: the index of its clock-enable
/// bit in the bus's enable register and of its reset bit in the bus's reset
/// register.
pub struct PeripheralBinding<B> {
    enable_bit: u32,
    reset_bit: u32,
    bus: PhantomData<B>,
}

impl<B> PeripheralBinding<B> {
    #[verifier::type_invariant]
    spec fn inv(self) -> bool {
        self.enable_bit < 32 && self.reset_bit < 32
    }

    pub closed spec fn enable_index(self) -> u32 {
        self.enable_bit
    }

    pub closed spec fn reset_index(self) -> u32 {
        self.reset_bit
    }

    /// Binds a peripheral to bit `enable_bit` of its bus's enable register and
    /// bit `reset_bit` of its bus's reset register.
    pub fn new(enable_bit: u32, reset_bit: u32) -> (r: Self)
        requires
            enable_bit < 32,
            reset_bit < 32,
        ensures
            r.enable_index() == enable_bit,
            r.reset_index() == reset_bit,
    {
        PeripheralBinding { enable_bit, reset_bit, bus: PhantomData }
    }

    /// The index of the peripheral's clock-enable bit.
    pub fn enable_bit(&self) -> (r: u32)
        ensures
            r == self.enable_index(),
            r < 32,
    {
        proof {
            use_type_invariant(self);
        }
        self.enable_bit
    }

    /// The index of the peripheral's reset bit.
    pub fn reset_bit(&self) -> (r: u32)
        ensures
            r == self.reset_index(),
            r < 32,
    {
        proof {
            use_type_invariant(self);
        }
        self.reset_bit
    }
}

/// Whether no two bindings of `table` share an enable bit or a reset bit.
pub open spec fn bits_disjoint<B>(table: Seq<PeripheralBinding<B>>) -> bool {
    forall|i: int, j: int|
        0 <= i < j < table.len() ==> {
            &&& #[trigger] table[i].enable_index() != #[trigger] table[j].enable_index()
            &&& table[i].reset_index() != table[j].reset_index()
        }
}

/// Checks a binding table for peripherals of one bus that would drive the same
/// enable bit or the same reset bit.
pub fn bindings_disjoint<B>(table: &[PeripheralBinding<B>]) -> (r: bool)
    ensures
        r == bits_disjoint(table@),
{
    let n: usize = table.len();
    let mut i: usize = 0;
    while i < n
        invariant
            n == table@.len(),
            i <= n,
            forall|a: int, b: int|
                0 <= a < i && a < b < n ==> {
                    &&& #[trigger] table@[a].enable_index() != #[trigger] table@[b].enable_index()
                    &&& table@[a].reset_index() != table@[b].reset_index()
                },
        decreases n - i,
    {
        let mut j: usize = i + 1;
        while j < n
            invariant
                n == table@.len(),
                i < n,
                i + 1 <= j <= n,
                forall|a: int, b: int|
                    0 <= a < i && a < b < n ==> {
                        &&& #[trigger] table@[a].enable_index() != #[trigger] table@[b].enable_index()
                        &&& table@[a].reset_index() != table@[b].reset_index()
                    },
                forall|b: int|
                    i < b < j ==> {
                        &&& table@[i as int].enable_index() != #[trigger] table@[b].enable_index()
                        &&& table@[i as int].reset_index() != table@[b].reset_index()
                    },
            decreases n - j,
        {
            let first = &table[i];
            let second = &table[j];
            if first.enable_bit() == second.enable_bit() || first.reset_bit()
                == second.reset_bit() {
                return false;
            }
            assert forall|b: int| i < b < j + 1 implies {
                &&& table@[i as int].enable_index() != #[trigger] table@[b].enable_index()
                &&& table@[i as int].reset_index() != table@[b].reset_index()
            } by {}
            j = j + 1;
        }
        assert forall|a: int, b: int| 0 <= a < i + 1 && a < b < n implies {
            &&& #[trigger] table@[a].enable_index() != #[trigger] table@[b].enable_index()
            &&& table@[a].reset_index() != table@[b].reset_index()
        } by {}
        i = i + 1;
    }
    true
}

impl<B: BusOperations> PeripheralBinding<B> {
    /// Enables the peripheral's clock: one read-modify-write of the enable
    /// register that sets the peripheral's enable bit and keeps every other bit.
    pub fn enable(&self, bus: &mut B)
        ensures
            final(bus).enable_register().bits() == set_bit(
                old(bus).enable_register().bits(),
                self.enable_index(),
            ),
            final(bus).enable_register().writes() == old(bus).enable_register().writes().push(
                set_bit(old(bus).enable_register().bits(), self.enable_index()),
            ),
            final(bus).reset_register() == old(bus).reset_register(),
    {
        let e: u32 = self.enable_bit();
        let reg = bus.enr();
        let v: u32 = reg.read();
        reg.write(v | (1u32 << e));
    }

    /// Disables the peripheral's clock: one read-modify-write of the enable
    /// register that clears the peripheral's enable bit and keeps every other
    /// bit.
    pub fn disable(&self, bus: &mut B)
        ensures
            final(bus).enable_register().bits() == clear_bit(
                old(bus).enable_register().bits(),
                self.enable_index(),
            ),
            final(bus).enable_register().writes() == old(bus).enable_register().writes().push(
                clear_bit(old(bus).enable_register().bits(), self.enable_index()),
            ),
            final(bus).reset_register() == old(bus).reset_register(),
    {
        let e: u32 = self.enable_bit();
        let reg = bus.enr();
        let v: u32 = reg.read();
        reg.write(v & !(1u32 << e));
    }

    /// Pulses the peripheral's reset line: a read-modify-write of the reset
    /// register that sets the reset bit, then one that clears it again.
    pub fn reset(&self, bus: &mut B)
        ensures
            final(bus).reset_register().writes() == old(bus).reset_register().writes()
                + seq![
                set_bit(old(bus).reset_register().bits(), self.reset_index()),
                clear_bit(
                    set_bit(old(bus).reset_register().bits(), self.reset_index()),
                    self.reset_index(),
                ),
            ],
            final(bus).reset_register().bits() == clear_bit(
                set_bit(old(bus).reset_register().bits(), self.reset_index()),
                self.reset_index(),
            ),
            final(bus).enable_register() == old(bus).enable_register(),
    {
        let r: u32 = self.reset_bit();
        let reg = bus.rstr();
        let v: u32 = reg.read();
        reg.write(v | (1u32 << r));
        let v: u32 = reg.read();
        reg.write(v & !(1u32 << r));
        proof {
            assert(reg.writes() =~= old(bus).reset_register().writes() + seq![
                set_bit(old(bus).reset_register().bits(), r),
                clear_bit(set_bit(old(bus).reset_register().bits(), r), r),
            ]);
        }
    }
}

} // verus!
