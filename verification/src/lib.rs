//! Locates a console's emulated working RAM inside the address space of an
//! externally running emulator process, and exposes console-address-space
//! reads that handle per-console addressing quirks and byte order.
//!
//! The process itself (attachment, raw reads, module and region enumeration)
//! is reached through the [`host::Host`] interface; everything above that
//! interface — signature scanning, address translation, the pointer
//! resolution recipes and the attachment state machine — is verified.

use vstd::prelude::*;

pub mod endian;
pub mod genesis;
pub mod host;
pub mod ps1;
pub mod scanner;
pub mod session;
pub mod shared;
pub mod wii;

verus! {

/// Byte order in which the emulator stores the console's memory.
#[derive(Clone, Copy, Debug, PartialEq, Eq, Structural)]
pub enum Endianness {
    Little,
    Big,
}

/// Width of a typed read from the emulated RAM.
#[derive(Clone, Copy, Debug, PartialEq, Eq, Structural)]
pub enum Width {
    W8,
    W16,
    W32,
}

impl Width {
    /// Number of bytes a value of this width occupies.
    pub open spec fn spec_len(self) -> nat {
        match self {
            Width::W8 => 1,
            Width::W16 => 2,
            Width::W32 => 4,
        }
    }

    /// Number of bytes a value of this width occupies.
    pub fn len(self) -> (r: usize)
        ensures
            r == self.spec_len(),
    {
        match self {
            Width::W8 => 1,
            Width::W16 => 2,
            Width::W32 => 4,
        }
    }
}

/// Why a read from the emulated RAM could not be served.
#[derive(Clone, Copy, Debug, PartialEq, Eq, Structural)]
pub enum Error {
    /// No resolved RAM pointer yet, or no process attached.
    NotReady,
    /// The logical offset lies outside the console's valid address window.
    OutOfRange,
    /// The host-level read failed (page unmapped, process gone mid-read).
    ReadFault,
}

} // verus!
