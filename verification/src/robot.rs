//! The lifecycle hook interface for robot code.
//!
//! The hosting kernel dispatches four lifecycle events — operator control,
//! autonomous, disabled, competition initialize — each of which runs the
//! corresponding hook of a user-supplied state object exactly once per
//! invocation.  Every hook defaults to an immediate-success no-op, so
//! implementers override only what they need.

use vstd::prelude::*;

verus! {

/// The failure a lifecycle hook may surface.  The scheduling core itself
/// defines no error of its own — it cannot fail except by never making
/// progress — so this carries whatever the hook wants to report; the
/// lifecycle glue treats it as fatal.
#[derive(PartialEq, Eq, Debug)]
pub struct HookError {
    /// What went wrong, for the fatal report.
    pub message: String,
}

/// Robot code run by the lifecycle dispatch.  Each hook may be called more
/// than once across a match; every invocation is independent.
pub trait Robot {
    /// Runs during the operator control period.
    fn opcontrol(&mut self) -> Result<(), HookError> {
        Ok(())
    }

    /// Runs during the autonomous period.
    fn auto(&mut self) -> Result<(), HookError> {
        Ok(())
    }

    /// Runs continuously during the disabled period.
    fn disabled(&mut self) -> Result<(), HookError> {
        Ok(())
    }

    /// Runs once when the competition system is initialized.
    fn comp_init(&mut self) -> Result<(), HookError> {
        Ok(())
    }
}

/// The default implementation object: no-ops all four hooks.  Each hook is
/// an immediate success, stated here so that a driver invocation on an
/// unoverridden hook provably completes with `Ok(())`.  The trait itself
/// promises nothing: overriding hooks must be free to fail.
pub struct NoOpRobot;

impl Robot for NoOpRobot {
    fn opcontrol(&mut self) -> (r: Result<(), HookError>)
        ensures
            r == Ok::<(), HookError>(()),
    {
        Ok(())
    }

    fn auto(&mut self) -> (r: Result<(), HookError>)
        ensures
            r == Ok::<(), HookError>(()),
    {
        Ok(())
    }

    fn disabled(&mut self) -> (r: Result<(), HookError>)
        ensures
            r == Ok::<(), HookError>(()),
    {
        Ok(())
    }

    fn comp_init(&mut self) -> (r: Result<(), HookError>)
        ensures
            r == Ok::<(), HookError>(()),
    {
        Ok(())
    }
}

} // verus!
