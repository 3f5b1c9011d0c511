//! Items shared by every console family: the host-supplied memory-region
//! view, overflow-safe address arithmetic, and the 32-/64-bit build probe.

use vstd::prelude::*;
use crate::Endianness;
use crate::endian::{decode_value, lemma_pow256_small, lemma_value_of_bound, pow256};
use crate::host::Host;
use crate::scanner::{Pattern, PatternToken};

verus! {

/// A memory region of the target process, as enumerated by the host.
/// Read-only view; the library never owns or alters the region list.
#[derive(Clone, Copy, Debug, PartialEq, Eq, Structural)]
pub struct MemoryRegion {
    /// Base address of the region inside the target process.
    pub base: u64,
    /// Size of the region in bytes.
    pub size: u64,
    /// Whether the region is mapped readable.
    pub readable: bool,
    /// Whether the region is mapped writable.
    pub writable: bool,
    /// Whether the region is mapped executable.
    pub executable: bool,
}

/// `a + b` when it fits in a `u64`, `None` on overflow.
pub fn try_add(a: u64, b: u64) -> (r: Option<u64>)
    ensures
        match r {
            Some(s) => s == a + b,
            None => a + b > u64::MAX,
        },
{
    if b <= u64::MAX - a {
        Some(a + b)
    } else {
        None
    }
}

/// `base + delta` with the signed displacement applied, `None` when the
/// result would leave the address space.
pub fn offset_by(base: u64, delta: i32) -> (r: Option<u64>)
    ensures
        match r {
            Some(a) => a == base + delta,
            None => base + delta > u64::MAX || base + delta < 0,
        },
{
    if delta >= 0 {
        try_add(base, delta as u64)
    } else {
        let magnitude = (-(delta as i64)) as u64;
        if magnitude <= base {
            Some(base - magnitude)
        } else {
            None
        }
    }
}

/// Reads one byte of the target process.
pub fn read_u8<H: Host>(host: &mut H, process: u64, address: u64) -> Option<u8> {
    match host.read_bytes(process, address, 1) {
        Some(bytes) => {
            if bytes.len() == 1 {
                Some(bytes[0])
            } else {
                None
            }
        },
        None => None,
    }
}

/// Reads `len` bytes of the target process and decodes them in the given
/// byte order. The bytes come from outside the library; only the decoding
/// is pinned, by [`crate::endian::decode_value`]'s contract.
pub fn read_value<H: Host>(
    host: &mut H,
    process: u64,
    address: u64,
    len: usize,
    endian: Endianness,
) -> (r: Option<u64>)
    requires
        1 <= len <= 8,
    ensures
        r matches Some(v) ==> v < pow256(len as nat),
{
    match host.read_bytes(process, address, len) {
        Some(bytes) => {
            if bytes.len() == len {
                let value = decode_value(&bytes, endian);
                proof {
                    lemma_value_of_bound(bytes@, endian);
                }
                Some(value)
            } else {
                None
            }
        },
        None => None,
    }
}

/// Reads a 32-bit value laid out least-significant byte first, as pointer
/// operands inside the target's machine code are.
pub fn read_u32_le<H: Host>(host: &mut H, process: u64, address: u64) -> (r: Option<u32>) {
    match host.read_bytes(process, address, 4) {
        Some(bytes) => {
            if bytes.len() == 4 {
                let value = decode_value(&bytes, Endianness::Little);
                proof {
                    lemma_value_of_bound(bytes@, Endianness::Little);
                    lemma_pow256_small();
                }
                Some(value as u32)
            } else {
                None
            }
        },
        None => None,
    }
}

/// Reads a 64-bit value laid out least-significant byte first: a pointer
/// cell of a 64-bit target process.
pub fn read_u64_le<H: Host>(host: &mut H, process: u64, address: u64) -> (r: Option<u64>) {
    match host.read_bytes(process, address, 8) {
        Some(bytes) => {
            if bytes.len() == 8 {
                Some(decode_value(&bytes, Endianness::Little))
            } else {
                None
            }
        },
        None => None,
    }
}

/// Reads a signed 32-bit displacement laid out least-significant byte
/// first, as position-independent references encode it.
pub fn read_i32_le<H: Host>(host: &mut H, process: u64, address: u64) -> (r: Option<i32>) {
    match read_u32_le(host, process, address) {
        Some(raw) => {
            if raw <= 0x7FFF_FFFF {
                Some(raw as i32)
            } else {
                // Two's complement: the high half denotes a negative offset.
                Some(-((0xFFFF_FFFFu32 - raw) as i32) - 1)
            }
        },
        None => None,
    }
}

/// The position-independent resolution recipe: reads the signed 32-bit
/// displacement `skip` bytes into a match and applies it past the four
/// displacement bytes themselves, yielding the referenced address.
pub fn resolve_relative<H: Host>(host: &mut H, process: u64, found: u64, skip: u64) -> Option<
    u64,
> {
    let operand = match try_add(found, skip) {
        Option::Some(a) => a,
        Option::None => { return None },
    };
    let displacement = match read_i32_le(host, process, operand) {
        Option::Some(d) => d,
        Option::None => { return None },
    };
    let after = match try_add(operand, 4) {
        Option::Some(a) => a,
        Option::None => { return None },
    };
    offset_by(after, displacement)
}

/// The direct absolute pointer recipe: the 32-bit operand `skip` bytes
/// into a match is the referenced address itself.
pub fn resolve_absolute<H: Host>(host: &mut H, process: u64, found: u64, skip: u64) -> Option<
    u64,
> {
    let operand = match try_add(found, skip) {
        Option::Some(a) => a,
        Option::None => { return None },
    };
    match read_u32_le(host, process, operand) {
        Option::Some(w) => Some(w as u64),
        Option::None => None,
    }
}

/// Whether the target emulator is a 64-bit build: probes the first page of
/// its main module for the marker the 64-bit builds carry there.
///
/// The result depends on the target process's memory, so nothing can be
/// pinned about it; the scan itself is carried out by the verified scanner.
pub fn check_for_64_bit<H: Host>(host: &mut H, process: u64, main_module_base: u64) -> bool {
    let sig = Pattern::new(vec![
        PatternToken::Exact(0x50),
        PatternToken::Exact(0x45),
        PatternToken::Exact(0x00),
        PatternToken::Exact(0x00),
        PatternToken::Exact(0x64),
    ]);
    crate::scanner::scan_process_range(host, process, main_module_base, 0x1000, &sig).is_some()
}

} // verus!
