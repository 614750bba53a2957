//! ADI (three-wire) port devices: analog in, analog out, potentiometer.
//!
//! An ADI slot is one of the eight lettered three-wire ports.  The device
//! values here hold the slot index; the raw reads and writes go through the
//! driver layer, which hands results back as plain integers.

use crate::error::PortError;
use vstd::prelude::*;

verus! {

/// How many ADI ports the brain offers.
pub const NUM_ADI_PORTS: u8 = 8;

/// Errors that can occur when using an ADI device.
#[derive(Clone, Copy, PartialEq, Eq, Structural, Debug)]
pub enum AdiError {
    /// The given port does not name one of the ADI slots.
    InvalidPort,
    /// Generic port related error.
    Port(PortError),
}

/// One of the eight lettered three-wire slots.
#[derive(Clone, Copy, PartialEq, Eq, Structural, Debug)]
pub enum AdiSlot {
    /// Slot A, port index 1.
    A,
    /// Slot B, port index 2.
    B,
    /// Slot C, port index 3.
    C,
    /// Slot D, port index 4.
    D,
    /// Slot E, port index 5.
    E,
    /// Slot F, port index 6.
    F,
    /// Slot G, port index 7.
    G,
    /// Slot H, port index 8.
    H,
}

impl AdiSlot {
    /// The port index of the slot.
    pub open spec fn spec_index(self) -> u8 {
        match self {
            AdiSlot::A => 1,
            AdiSlot::B => 2,
            AdiSlot::C => 3,
            AdiSlot::D => 4,
            AdiSlot::E => 5,
            AdiSlot::F => 6,
            AdiSlot::G => 7,
            AdiSlot::H => 8,
        }
    }

    /// The port index of the slot, always within `1..=NUM_ADI_PORTS`.
    pub fn index(self) -> (r: u8)
        ensures
            r == self.spec_index(),
            1 <= r <= NUM_ADI_PORTS,
    {
        match self {
            AdiSlot::A => 1,
            AdiSlot::B => 2,
            AdiSlot::C => 3,
            AdiSlot::D => 4,
            AdiSlot::E => 5,
            AdiSlot::F => 6,
            AdiSlot::G => 7,
            AdiSlot::H => 8,
        }
    }
}

/// An analog input on an ADI slot.
#[derive(Clone, Copy, PartialEq, Eq, Structural, Debug)]
pub struct AdiAnalogIn {
    port: u8,
}

impl AdiAnalogIn {
    /// The port index the device was created on.
    pub closed spec fn spec_port(self) -> u8 {
        self.port
    }

    /// An analog input on the given slot.
    pub fn new(slot: AdiSlot) -> (r: AdiAnalogIn)
        ensures
            r.spec_port() == slot.spec_index(),
    {
        let port = slot.index();
        AdiAnalogIn { port }
    }

    /// The port index of the device.
    pub fn port(&self) -> (r: u8)
        ensures
            r == self.spec_port(),
    {
        self.port
    }
}

/// An analog output on an ADI slot.
#[derive(Clone, Copy, PartialEq, Eq, Structural, Debug)]
pub struct AdiAnalogOut {
    port: u8,
}

impl AdiAnalogOut {
    /// The port index the device was created on.
    pub closed spec fn spec_port(self) -> u8 {
        self.port
    }

    /// An analog output on the given slot.
    pub fn new(slot: AdiSlot) -> (r: AdiAnalogOut)
        ensures
            r.spec_port() == slot.spec_index(),
    {
        let port = slot.index();
        AdiAnalogOut { port }
    }

    /// The port index of the device.
    pub fn port(&self) -> (r: u8)
        ensures
            r == self.spec_port(),
    {
        self.port
    }
}

/// A potentiometer on an ADI slot.  The SDK hands out a device reference on
/// initialization; the driver layer passes that reference in as a plain
/// integer.
#[derive(Clone, Copy, PartialEq, Eq, Structural, Debug)]
pub struct AdiPotentiometer {
    port: u8,
    reference: i32,
}

impl AdiPotentiometer {
    /// The port index the device was created on.
    pub closed spec fn spec_port(self) -> u8 {
        self.port
    }

    /// The SDK device reference obtained on initialization.
    pub closed spec fn spec_reference(self) -> i32 {
        self.reference
    }

    /// A potentiometer on the given slot, holding the SDK device reference
    /// the driver obtained for it.
    pub fn new(slot: AdiSlot, reference: i32) -> (r: AdiPotentiometer)
        ensures
            r.spec_port() == slot.spec_index(),
            r.spec_reference() == reference,
    {
        let port = slot.index();
        AdiPotentiometer { port, reference }
    }

    /// A potentiometer on the given slot, rejecting an out-of-range port.
    /// The slots themselves always carry a valid index, so this always
    /// succeeds; it mirrors the checked construction path.
    pub fn try_new(slot: AdiSlot, reference: i32) -> (r: Result<AdiPotentiometer, AdiError>)
        ensures
            r is Ok,
            r->Ok_0.spec_port() == slot.spec_index(),
            r->Ok_0.spec_reference() == reference,
    {
        let port = slot.index();
        if port < 1 || port > NUM_ADI_PORTS {
            Err(AdiError::InvalidPort)
        } else {
            Ok(AdiPotentiometer { port, reference })
        }
    }

    /// The port index of the device.
    pub fn port(&self) -> (r: u8)
        ensures
            r == self.spec_port(),
    {
        self.port
    }

    /// The SDK device reference of the device.
    pub fn reference(&self) -> (r: i32)
        ensures
            r == self.spec_reference(),
    {
        self.reference
    }
}

} // verus!
