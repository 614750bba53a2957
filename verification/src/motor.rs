//! Status and fault flag words reported by the smart motors.
//!
//! The SDK hands back a `u32` of bit flags (or the error sentinel); the
//! driver layer reads it together with errno and passes both here as plain
//! values.  The flag masks match the SDK's motor flag tables.

use crate::error::{spec_port_error_from_errno, PortError, PROS_ERR_RAW};
use vstd::prelude::*;

verus! {

/// Fault flag: the motor's temperature is above its limit.
pub const FAULT_MOTOR_OVER_TEMP: u32 = 0x01;

/// Fault flag: the motor's H-bridge has encountered a fault.
pub const FAULT_DRIVER_FAULT: u32 = 0x02;

/// Fault flag: the motor is over current.
pub const FAULT_OVER_CURRENT: u32 = 0x04;

/// Fault flag: the motor's H-bridge is over current.
pub const FAULT_DRV_OVER_CURRENT: u32 = 0x08;

/// Status flag: the motor is busy and its flags cannot be read.
pub const FLAG_BUSY: u32 = 0x01;

/// Status flag: the motor is currently at zero velocity.
pub const FLAG_ZERO_VELOCITY: u32 = 0x02;

/// Status flag: the motor is at its zero position.
pub const FLAG_ZERO_POSITION: u32 = 0x04;

/// Wire code for coast braking.
pub const BRAKE_COAST_CODE: i32 = 0;

/// Wire code for regenerative braking.
pub const BRAKE_BRAKE_CODE: i32 = 1;

/// Wire code for hold braking.
pub const BRAKE_HOLD_CODE: i32 = 2;

/// Wire code for the 36:1 gearset.
pub const GEARSET_36_CODE: i32 = 0;

/// Wire code for the 18:1 gearset.
pub const GEARSET_18_CODE: i32 = 1;

/// Wire code for the 6:1 gearset.
pub const GEARSET_06_CODE: i32 = 2;

/// Errors that can occur when using a motor.
#[derive(Clone, Copy, PartialEq, Eq, Structural, Debug)]
pub enum MotorError {
    /// Failed to communicate with the motor while attempting to read flags.
    Busy,
    /// Generic port related error.
    Port(PortError),
}

/// How a motor should act when braking.  The never-brake mode carries the
/// SDK's name for it, coast.
#[derive(Clone, Copy, PartialEq, Eq, Structural, Debug)]
pub enum BrakeMode {
    /// Motor never brakes.
    Coast,
    /// Motor uses regenerative braking to slow down faster.
    Brake,
    /// Motor exerts force to hold the same position.
    Hold,
}

impl BrakeMode {
    /// The wire code the SDK takes for this brake mode.
    pub fn code(self) -> (r: i32)
        ensures
            self == BrakeMode::Coast ==> r == BRAKE_COAST_CODE,
            self == BrakeMode::Brake ==> r == BRAKE_BRAKE_CODE,
            self == BrakeMode::Hold ==> r == BRAKE_HOLD_CODE,
    {
        match self {
            BrakeMode::Coast => BRAKE_COAST_CODE,
            BrakeMode::Brake => BRAKE_BRAKE_CODE,
            BrakeMode::Hold => BRAKE_HOLD_CODE,
        }
    }
}

/// Reads a raw brake-mode word as the SDK reports it: the sentinel means
/// errno holds a port error; otherwise the word must be one of the three
/// brake-mode codes.
pub fn brake_mode_from_code(code: i32, errno: i32) -> (r: Result<BrakeMode, MotorError>)
    requires
        code == PROS_ERR_RAW ==> spec_port_error_from_errno(errno) is Some,
        code != PROS_ERR_RAW ==> code == BRAKE_COAST_CODE || code == BRAKE_BRAKE_CODE || code
            == BRAKE_HOLD_CODE,
    ensures
        code == PROS_ERR_RAW ==> r == Result::<BrakeMode, MotorError>::Err(
            MotorError::Port(spec_port_error_from_errno(errno)->Some_0),
        ),
        code == BRAKE_COAST_CODE ==> r == Result::<BrakeMode, MotorError>::Ok(BrakeMode::Coast),
        code == BRAKE_BRAKE_CODE ==> r == Result::<BrakeMode, MotorError>::Ok(BrakeMode::Brake),
        code == BRAKE_HOLD_CODE ==> r == Result::<BrakeMode, MotorError>::Ok(BrakeMode::Hold),
{
    if code == PROS_ERR_RAW {
        match crate::error::port_error_from_errno(errno) {
            Some(pe) => Err(MotorError::Port(pe)),
            None => Err(MotorError::Busy),  // unreachable under the precondition
        }
    } else if code == BRAKE_COAST_CODE {
        Ok(BrakeMode::Coast)
    } else if code == BRAKE_BRAKE_CODE {
        Ok(BrakeMode::Brake)
    } else {
        Ok(BrakeMode::Hold)
    }
}

/// Internal gearset used by the smart motors.
#[derive(Clone, Copy, PartialEq, Eq, Structural, Debug)]
pub enum Gearset {
    /// 36:1 gear ratio, 100 rpm.
    Red,
    /// 18:1 gear ratio, 200 rpm.
    Green,
    /// 6:1 gear ratio, 600 rpm.
    Blue,
}

impl Gearset {
    /// The wire code the SDK takes for this gearset.
    pub fn code(self) -> (r: i32)
        ensures
            self == Gearset::Red ==> r == GEARSET_36_CODE,
            self == Gearset::Green ==> r == GEARSET_18_CODE,
            self == Gearset::Blue ==> r == GEARSET_06_CODE,
    {
        match self {
            Gearset::Red => GEARSET_36_CODE,
            Gearset::Green => GEARSET_18_CODE,
            Gearset::Blue => GEARSET_06_CODE,
        }
    }
}

/// Reads a raw gearset word as the SDK reports it: the sentinel means errno
/// holds a port error; otherwise the word must be one of the three gearset
/// codes.
pub fn gearset_from_code(code: i32, errno: i32) -> (r: Result<Gearset, MotorError>)
    requires
        code == PROS_ERR_RAW ==> spec_port_error_from_errno(errno) is Some,
        code != PROS_ERR_RAW ==> code == GEARSET_36_CODE || code == GEARSET_18_CODE || code
            == GEARSET_06_CODE,
    ensures
        code == PROS_ERR_RAW ==> r == Result::<Gearset, MotorError>::Err(
            MotorError::Port(spec_port_error_from_errno(errno)->Some_0),
        ),
        code == GEARSET_36_CODE ==> r == Result::<Gearset, MotorError>::Ok(Gearset::Red),
        code == GEARSET_18_CODE ==> r == Result::<Gearset, MotorError>::Ok(Gearset::Green),
        code == GEARSET_06_CODE ==> r == Result::<Gearset, MotorError>::Ok(Gearset::Blue),
{
    if code == PROS_ERR_RAW {
        match crate::error::port_error_from_errno(errno) {
            Some(pe) => Err(MotorError::Port(pe)),
            None => Err(MotorError::Busy),  // unreachable under the precondition
        }
    } else if code == GEARSET_36_CODE {
        Ok(Gearset::Red)
    } else if code == GEARSET_18_CODE {
        Ok(Gearset::Green)
    } else {
        Ok(Gearset::Blue)
    }
}

/// The fault flags returned by a motor.
#[derive(Default, Clone, Copy, PartialEq, Eq, Structural, Debug)]
pub struct MotorFaults(pub u32);

impl MotorFaults {
    /// Checks if the motor's temperature is above its limit.
    pub fn is_over_temperature(&self) -> (r: bool)
        ensures
            r == ((self.0 & FAULT_MOTOR_OVER_TEMP) != 0),
    {
        self.0 & FAULT_MOTOR_OVER_TEMP != 0
    }

    /// Check if the motor's H-bridge has encountered a fault.
    pub fn is_driver_fault(&self) -> (r: bool)
        ensures
            r == ((self.0 & FAULT_DRIVER_FAULT) != 0),
    {
        self.0 & FAULT_DRIVER_FAULT != 0
    }

    /// Check if the motor is over current.
    pub fn is_over_current(&self) -> (r: bool)
        ensures
            r == ((self.0 & FAULT_OVER_CURRENT) != 0),
    {
        self.0 & FAULT_OVER_CURRENT != 0
    }

    /// Check if the motor's H-bridge is over current.
    pub fn is_driver_over_current(&self) -> (r: bool)
        ensures
            r == ((self.0 & FAULT_DRV_OVER_CURRENT) != 0),
    {
        self.0 & FAULT_DRV_OVER_CURRENT != 0
    }
}

/// Reads a raw fault word as the SDK reports it: the sentinel means errno
/// holds a port error; anything else is the fault flags themselves.
pub fn motor_faults_from_raw(raw: u32, errno: i32) -> (r: Result<MotorFaults, MotorError>)
    requires
        raw == PROS_ERR_RAW as u32 ==> spec_port_error_from_errno(errno) is Some,
    ensures
        raw == PROS_ERR_RAW as u32 ==> r == Result::<MotorFaults, MotorError>::Err(
            MotorError::Port(spec_port_error_from_errno(errno)->Some_0),
        ),
        raw != PROS_ERR_RAW as u32 ==> r == Result::<MotorFaults, MotorError>::Ok(
            MotorFaults(raw),
        ),
{
    if raw == PROS_ERR_RAW as u32 {
        match crate::error::port_error_from_errno(errno) {
            Some(pe) => Err(MotorError::Port(pe)),
            None => Err(MotorError::Busy),  // unreachable under the precondition
        }
    } else {
        Ok(MotorFaults(raw))
    }
}

/// The status flags returned by a motor.
#[derive(Default, Clone, Copy, PartialEq, Eq, Structural, Debug)]
pub struct MotorStatus(pub u32);

impl MotorStatus {
    /// Check if the motor is currently stopped.
    pub fn is_stopped(&self) -> (r: bool)
        ensures
            r == ((self.0 & FLAG_ZERO_VELOCITY) != 0),
    {
        self.0 & FLAG_ZERO_VELOCITY != 0
    }

    /// Check if the motor is at its zero position.
    pub fn is_zeroed(&self) -> (r: bool)
        ensures
            r == ((self.0 & FLAG_ZERO_POSITION) != 0),
    {
        self.0 & FLAG_ZERO_POSITION != 0
    }
}

/// Reads a raw status word as the SDK reports it: the sentinel means errno
/// holds a port error; a word with the busy bit set cannot be read and
/// surfaces as [`MotorError::Busy`]; anything else is the status flags.
pub fn motor_status_from_raw(raw: u32, errno: i32) -> (r: Result<MotorStatus, MotorError>)
    requires
        raw == PROS_ERR_RAW as u32 ==> spec_port_error_from_errno(errno) is Some,
    ensures
        raw == PROS_ERR_RAW as u32 ==> r == Result::<MotorStatus, MotorError>::Err(
            MotorError::Port(spec_port_error_from_errno(errno)->Some_0),
        ),
        raw != PROS_ERR_RAW as u32 && (raw & FLAG_BUSY) != 0 ==> r == Result::<
            MotorStatus,
            MotorError,
        >::Err(MotorError::Busy),
        raw != PROS_ERR_RAW as u32 && (raw & FLAG_BUSY) == 0 ==> r == Result::<
            MotorStatus,
            MotorError,
        >::Ok(MotorStatus(raw)),
{
    if raw == PROS_ERR_RAW as u32 {
        match crate::error::port_error_from_errno(errno) {
            Some(pe) => Err(MotorError::Port(pe)),
            None => Err(MotorError::Busy),  // unreachable under the precondition
        }
    } else if raw & FLAG_BUSY == 0 {
        Ok(MotorStatus(raw))
    } else {
        Err(MotorError::Busy)
    }
}

} // verus!
