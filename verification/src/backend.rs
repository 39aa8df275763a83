//! The fan backend: whatever takes a duty and drives the fans with it.
//!
//! A backend that drives hardware hands control back to the onboard
//! regulation when it is dropped; that, like the hardware itself, lies
//! outside this library.

use vstd::prelude::*;
use crate::gamma::UNIT;

verus! {

/// Why a backend could not be opened or did not take a command.
#[derive(Debug)]
pub struct Error {
    /// What the backend reported.
    pub detail: String,
}

/// What the daemon asks of a fan backend.
pub trait Backend {
    /// Opens the backend.
    fn new() -> Result<Self, Error> where Self: Sized;

    /// Drives the fans at `duty` millionths of full speed.
    fn set_speed(&mut self, duty: u32) -> Result<(), Error>
        requires
            duty <= UNIT,
    ;
}

/// A backend that drives nothing: every command succeeds and has no
/// effect.
#[derive(Debug, Clone, Copy, PartialEq, Eq, Structural)]
pub struct DryRun;

impl Backend for DryRun {
    fn new() -> (r: Result<Self, Error>)
        ensures
            r == Ok::<DryRun, Error>(DryRun),
    {
        Ok(DryRun)
    }

    fn set_speed(&mut self, duty: u32) -> (r: Result<(), Error>)
        ensures
            r is Ok,
            *final(self) == *old(self),
    {
        Ok(())
    }
}

} // verus!
