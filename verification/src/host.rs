//! The external process/host collaborator, consumed as-is: process
//! attachment and liveness, raw byte reads at absolute host addresses, and
//! module/region enumeration.
//!
//! The library performs none of these itself. Every algorithm above this
//! interface is verified for every implementation of it, so nothing is
//! assumed about what an implementation returns: callers check lengths at
//! run time and treat every outcome as possible.

use vstd::prelude::*;
use crate::shared::MemoryRegion;

verus! {

/// Abstraction of the machine the emulator runs on. An implementation
/// typically forwards to an operating-system or runtime facility; tests may
/// script the responses.
pub trait Host {
    /// Attach to a running process with the given name; a handle on success.
    fn attach(&mut self, name: &str) -> Option<u64>;

    /// Whether the process behind the handle still reports open.
    fn is_open(&mut self, process: u64) -> bool;

    /// Read `len` bytes at an absolute address of the target process.
    /// `None` when the range is not fully readable.
    fn read_bytes(&mut self, process: u64, address: u64, len: usize) -> Option<Vec<u8>>;

    /// Base address of a loaded module of the target process, by name.
    fn module_address(&mut self, process: u64, name: &str) -> Option<u64>;

    /// Size in bytes of a loaded module of the target process, by name.
    fn module_size(&mut self, process: u64, name: &str) -> Option<u64>;

    /// The target process's memory regions, in the order the host
    /// enumerates them.
    fn memory_regions(&mut self, process: u64) -> Vec<MemoryRegion>;
}

} // verus!
