//! Reset and clock control: external oscillator configuration, bus register
//! access and per-peripheral enable / disable / reset bit operations.

pub mod bus;
pub mod clock;
pub mod laws;
pub mod peripheral;
pub mod register;

pub use bus::{BusOperations, BusRegisters, RegisterBlock};
pub use clock::{HSEClock, HSEClockMode};
pub use peripheral::{bindings_disjoint, PeripheralBinding};
pub use register::{RecordingRegister, Register};
