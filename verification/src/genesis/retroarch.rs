//! Locator for RetroArch running a Genesis core: finds which supported
//! core module is loaded and dispatches to that core's own pattern set,
//! branching on whether the build is 32- or 64-bit. The core module's base
//! is kept as the revalidation anchor and probed every tick.

use vstd::prelude::*;
use super::ProcessInfo;
use crate::host::Host;
use crate::scanner::{scan_process_range, scan_writable_regions, Pattern, PatternToken};
use crate::shared::{
    check_for_64_bit,
    read_u32_le,
    read_u8,
    resolve_absolute,
    resolve_relative,
    try_add,
};
use crate::Endianness;

verus! {

/// Locates the emulated RAM for whichever supported core is loaded. Every
/// supported core stores the RAM little-endian. A failed locate commits
/// nothing.
pub fn retroarch<H: Host>(host: &mut H, game: &mut ProcessInfo) -> (r: Option<u64>)
    ensures
        r is None ==> *final(game) == *old(game),
        final(game).wram() == old(game).wram(),
        final(game).emulator() == old(game).emulator(),
        final(game).process() == old(game).process(),
        r is Some ==> final(game).endian() == Endianness::Little,
{
    let process = game.emulator_process;
    let main = match host.module_address(process, "retroarch.exe") {
        Option::Some(a) => a,
        Option::None => { return None },
    };
    let is_64_bit = check_for_64_bit(host, process, main);

    if let Some(core_address) = host.module_address(process, "blastem_libretro.dll") {
        let wram = match core_blastem(host, process) {
            Option::Some(w) => w,
            Option::None => { return None },
        };
        game.anchor = core_address;
        game.endianness = Endianness::Little;
        return Some(wram);
    }
    if let Some(core_address) = host.module_address(process, "genesis_plus_gx_libretro.dll") {
        let size = match host.module_size(process, "genesis_plus_gx_libretro.dll") {
            Option::Some(s) => s,
            Option::None => { return None },
        };
        let wram = match core_genesis_plus_gx(host, process, core_address, size, is_64_bit) {
            Option::Some(w) => w,
            Option::None => { return None },
        };
        game.anchor = core_address;
        game.endianness = Endianness::Little;
        return Some(wram);
    }
    if let Some(core_address) = host.module_address(process, "genesis_plus_gx_wide_libretro.dll") {
        let size = match host.module_size(process, "genesis_plus_gx_wide_libretro.dll") {
            Option::Some(s) => s,
            Option::None => { return None },
        };
        let wram = match core_genesis_plus_gx(host, process, core_address, size, is_64_bit) {
            Option::Some(w) => w,
            Option::None => { return None },
        };
        game.anchor = core_address;
        game.endianness = Endianness::Little;
        return Some(wram);
    }
    if let Some(core_address) = host.module_address(process, "picodrive_libretro.dll") {
        let size = match host.module_size(process, "picodrive_libretro.dll") {
            Option::Some(s) => s,
            Option::None => { return None },
        };
        let wram = match core_picodrive(host, process, core_address, size, is_64_bit) {
            Option::Some(w) => w,
            Option::None => { return None },
        };
        game.anchor = core_address;
        game.endianness = Endianness::Little;
        return Some(wram);
    }
    None
}

/// The BlastEm core keeps its RAM in a writable region of one exact size,
/// with the address embedded absolutely in the masking fragment.
fn core_blastem<H: Host>(host: &mut H, process: u64) -> Option<u64> {
    let sig = Pattern::new(vec![
        PatternToken::Exact(0x72),
        PatternToken::Exact(0x0E),
        PatternToken::Exact(0x81),
        PatternToken::Exact(0xE1),
        PatternToken::Exact(0xFF),
        PatternToken::Exact(0xFF),
        PatternToken::Exact(0x00),
        PatternToken::Exact(0x00),
        PatternToken::Exact(0x66),
        PatternToken::Exact(0x8B),
        PatternToken::Exact(0x89),
        PatternToken::Wildcard,
        PatternToken::Wildcard,
        PatternToken::Wildcard,
        PatternToken::Wildcard,
        PatternToken::Exact(0xC3),
    ]);
    let found = match scan_writable_regions(host, process, Some(0x101000), &sig) {
        Option::Some(a) => a,
        Option::None => { return None },
    };
    let operand = match try_add(found, 11) {
        Option::Some(a) => a,
        Option::None => { return None },
    };
    let wram = match read_u32_le(host, process, operand) {
        Option::Some(w) => w,
        Option::None => { return None },
    };
    Some(wram as u64)
}

/// The Genesis Plus GX cores embed the RAM address absolutely in 32-bit
/// builds and as an instruction-pointer-relative displacement in 64-bit
/// builds.
fn core_genesis_plus_gx<H: Host>(
    host: &mut H,
    process: u64,
    core_address: u64,
    core_size: u64,
    is_64_bit: bool,
) -> Option<u64> {
    if is_64_bit {
        let sig = Pattern::new(vec![
            PatternToken::Exact(0x48),
            PatternToken::Exact(0x8D),
            PatternToken::Exact(0x0D),
            PatternToken::Wildcard,
            PatternToken::Wildcard,
            PatternToken::Wildcard,
            PatternToken::Wildcard,
            PatternToken::Exact(0x4C),
            PatternToken::Exact(0x8B),
            PatternToken::Exact(0x2D),
        ]);
        let found = match scan_process_range(host, process, core_address, core_size, &sig) {
            Option::Some(a) => a,
            Option::None => { return None },
        };
        resolve_relative(host, process, found, 3)
    } else {
        let sig = Pattern::new(vec![
            PatternToken::Exact(0xA3),
            PatternToken::Wildcard,
            PatternToken::Wildcard,
            PatternToken::Wildcard,
            PatternToken::Wildcard,
            PatternToken::Exact(0x29),
            PatternToken::Exact(0xF9),
        ]);
        let found = match scan_process_range(host, process, core_address, core_size, &sig) {
            Option::Some(a) => a,
            Option::None => { return None },
        };
        resolve_absolute(host, process, found, 1)
    }
}

/// The PicoDrive core, with the same two encodings under its own patterns.
fn core_picodrive<H: Host>(
    host: &mut H,
    process: u64,
    core_address: u64,
    core_size: u64,
    is_64_bit: bool,
) -> Option<u64> {
    if is_64_bit {
        let sig = Pattern::new(vec![
            PatternToken::Exact(0x48),
            PatternToken::Exact(0x8D),
            PatternToken::Exact(0x0D),
            PatternToken::Wildcard,
            PatternToken::Wildcard,
            PatternToken::Wildcard,
            PatternToken::Wildcard,
            PatternToken::Exact(0x41),
            PatternToken::Exact(0xB8),
        ]);
        let found = match scan_process_range(host, process, core_address, core_size, &sig) {
            Option::Some(a) => a,
            Option::None => { return None },
        };
        resolve_relative(host, process, found, 3)
    } else {
        let sig = Pattern::new(vec![
            PatternToken::Exact(0xB9),
            PatternToken::Wildcard,
            PatternToken::Wildcard,
            PatternToken::Wildcard,
            PatternToken::Wildcard,
            PatternToken::Exact(0xC1),
            PatternToken::Exact(0xEF),
            PatternToken::Exact(0x10),
        ]);
        let found = match scan_process_range(host, process, core_address, core_size, &sig) {
            Option::Some(a) => a,
            Option::None => { return None },
        };
        resolve_absolute(host, process, found, 1)
    }
}

/// Probes one byte at the core module's base: the pointer chain stays
/// valid exactly while the core stays loaded. Reads nothing else and
/// changes nothing.
pub fn keep_alive<H: Host>(host: &mut H, game: &ProcessInfo) -> bool {
    read_u8(host, game.emulator_process, game.anchor).is_some()
}

} // verus!
