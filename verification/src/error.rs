//! Domain error codes for port-attached hardware.
//!
//! The hardware SDK reports failures through a sentinel return value plus
//! an errno code.  The thin driver layer reads both and hands them to the
//! library as plain integers; the functions here turn a code into the
//! library's error values.  The errno values match the SDK's newlib-style
//! table.

use vstd::prelude::*;

verus! {

/// Sentinel an SDK call returns in place of a valid `i32` result when errno
/// holds the real error.
pub const PROS_ERR_RAW: i32 = i32::MAX;

/// errno: no such device or address — a port index outside the valid range.
pub const ERRNO_ENXIO: i32 = 6;

/// errno: permission denied.
pub const ERRNO_EACCES: i32 = 13;

/// errno: no such device — the port cannot be configured as the requested
/// device type.
pub const ERRNO_ENODEV: i32 = 19;

/// errno: argument out of domain.
pub const ERRNO_EDOM: i32 = 33;

/// errno: address already in use.
pub const ERRNO_EADDRINUSE: i32 = 98;

/// errno: host is down.
pub const ERRNO_EHOSTDOWN: i32 = 112;

/// Generic errors that can take place when using ports on the brain.
#[derive(Clone, Copy, PartialEq, Eq, Structural, Debug)]
pub enum PortError {
    /// The specified port is outside of the allowed range.
    PortOutOfRange,
    /// The specified port couldn't be configured as the specified type.
    PortCannotBeConfigured,
    /// The specified port is already being used or is mismatched.
    AlreadyInUse,
}

/// The port error a given errno code stands for, if any.
pub open spec fn spec_port_error_from_errno(errno: i32) -> Option<PortError> {
    if errno == ERRNO_ENXIO {
        Some(PortError::PortOutOfRange)
    } else if errno == ERRNO_ENODEV {
        Some(PortError::PortCannotBeConfigured)
    } else if errno == ERRNO_EADDRINUSE {
        Some(PortError::AlreadyInUse)
    } else {
        None
    }
}

/// Turns an errno code into the port error it stands for, if it is one of
/// the port-related codes.
pub fn port_error_from_errno(errno: i32) -> (r: Option<PortError>)
    ensures
        r == spec_port_error_from_errno(errno),
{
    if errno == ERRNO_ENXIO {
        Some(PortError::PortOutOfRange)
    } else if errno == ERRNO_ENODEV {
        Some(PortError::PortCannotBeConfigured)
    } else if errno == ERRNO_EADDRINUSE {
        Some(PortError::AlreadyInUse)
    } else {
        None
    }
}

} // verus!
