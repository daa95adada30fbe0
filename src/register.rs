use vstd::prelude::*;

verus! {

/// `v` with bit `i` set.
pub open spec fn set_bit(v: u32, i: u32) -> u32 {
    v | (1u32 << i)
}

/// `v` with bit `i` cleared.
pub open spec fn clear_bit(v: u32, i: u32) -> u32 {
    v & !(1u32 << i)
}

/// Whether bit `i` of `v` is set.
pub open spec fn bit_of(v: u32, i: u32) -> bool {
    (v >> i) & 1u32 == 1u32
}

/// A 32-bit, bit-addressable control register.
///
/// Its model is the word it holds now and every word written to it so far,
/// oldest first. A write replaces the word and is appended to the record.
pub trait Register {
    spec fn bits(&self) -> u32;

    spec fn writes(&self) -> Seq<u32>;

    fn read(&self) -> (r: u32)
        ensures
            r == self.bits(),
    ;

    fn write(&mut self, value: u32)
        ensures
            final(self).bits() == value,
            final(self).writes() == old(self).writes().push(value),
    ;
}

/// A control register held in memory, keeping every word written to it.
pub struct RecordingRegister {
    bits: u32,
    log: Vec<u32>,
}

impl RecordingRegister {
    /// A register holding `initial`, with nothing written to it yet.
    pub fn new(initial: u32) -> (r: Self)
        ensures
            r.bits() == initial,
            r.writes() == Seq::<u32>::empty(),
    {
        RecordingRegister { bits: initial, log: Vec::new() }
    }

    /// The word the register holds.
    pub fn value(&self) -> (r: u32)
        ensures
            r == self.bits(),
    {
        self.bits
    }

    /// The words written to the register, oldest first.
    pub fn write_log(&self) -> (r: Vec<u32>)
        ensures
            r@ == self.writes(),
    {
        self.log.clone()
    }
}

impl Register for RecordingRegister {
    closed spec fn bits(&self) -> u32 {
        self.bits
    }

    closed spec fn writes(&self) -> Seq<u32> {
        self.log@
    }

    fn read(&self) -> (r: u32) {
        self.bits
    }

    fn write(&mut self, value: u32) {
        self.bits = value;
        self.log.push(value);
    }
}

} // verus!
