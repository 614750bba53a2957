//! Cooperative task-scheduling core for a single-core, poll-driven target.
//!
//! The library covers the timer reactor, the sleep suspension primitive that
//! bridges wall-clock time into the suspension model, and the executor that
//! drives one root computation to completion.  The monotonic millisecond
//! clock is an external collaborator: every entry point that needs the time
//! takes a clock reading as a plain `u32` argument, and the thin driver that
//! actually samples the hardware clock lives outside the verified core.
//!
//! Around the core sit the data models of the port-attached peripherals —
//! motor flag words, vision detections and colors, ADI slots — which check
//! and decode the plain values the driver layer reads from the hardware
//! SDK, and the lifecycle hook interface the kernel dispatch drives.

pub mod adi;
pub mod error;
pub mod executor;
pub mod motor;
pub mod reactor;
pub mod robot;
pub mod suspend;
pub mod vision;
