//! Locator for RetroArch running a PS1 core: finds which supported core
//! module is loaded and dispatches to that core's own pattern set,
//! branching on whether the build is 32- or 64-bit. The core module's base
//! is kept as the revalidation anchor and probed every tick.

use vstd::prelude::*;
use super::ProcessInfo;
use crate::host::Host;
use crate::scanner::{scan_process_range, Pattern, PatternToken};
use crate::shared::{
    check_for_64_bit,
    read_u32_le,
    read_u64_le,
    read_u8,
    resolve_relative,
    try_add,
};

verus! {

/// Locates the emulated RAM for whichever supported core is loaded. A
/// failed locate commits nothing.
pub fn retroarch<H: Host>(host: &mut H, game: &mut ProcessInfo) -> (r: Option<u64>)
    ensures
        r is None ==> *final(game) == *old(game),
        final(game).wram() == old(game).wram(),
        final(game).emulator() == old(game).emulator(),
        final(game).process() == old(game).process(),
{
    let process = game.emulator_process;
    let main = match host.module_address(process, "retroarch.exe") {
        Option::Some(a) => a,
        Option::None => { return None },
    };
    let is_64_bit = check_for_64_bit(host, process, main);

    if let Some(core_address) = host.module_address(process, "mednafen_psx_hw_libretro.dll") {
        let size = match host.module_size(process, "mednafen_psx_hw_libretro.dll") {
            Option::Some(s) => s,
            Option::None => { return None },
        };
        let wram = match core_mednafen(host, process, core_address, size, is_64_bit) {
            Option::Some(w) => w,
            Option::None => { return None },
        };
        game.anchor = core_address;
        return Some(wram);
    }
    if let Some(core_address) = host.module_address(process, "mednafen_psx_libretro.dll") {
        let size = match host.module_size(process, "mednafen_psx_libretro.dll") {
            Option::Some(s) => s,
            Option::None => { return None },
        };
        let wram = match core_mednafen(host, process, core_address, size, is_64_bit) {
            Option::Some(w) => w,
            Option::None => { return None },
        };
        game.anchor = core_address;
        return Some(wram);
    }
    if let Some(core_address) = host.module_address(process, "swanstation_libretro.dll") {
        let size = match host.module_size(process, "swanstation_libretro.dll") {
            Option::Some(s) => s,
            Option::None => { return None },
        };
        let wram = match core_swanstation(host, process, core_address, size, is_64_bit) {
            Option::Some(w) => w,
            Option::None => { return None },
        };
        game.anchor = core_address;
        return Some(wram);
    }
    if let Some(core_address) = host.module_address(process, "pcsx_rearmed_libretro.dll") {
        let size = match host.module_size(process, "pcsx_rearmed_libretro.dll") {
            Option::Some(s) => s,
            Option::None => { return None },
        };
        let wram = match core_rearmed(host, process, core_address, size, is_64_bit) {
            Option::Some(w) => w,
            Option::None => { return None },
        };
        game.anchor = core_address;
        return Some(wram);
    }
    None
}

/// The Beetle-PSX cores: an instruction-pointer-relative pointer cell in
/// 64-bit builds, an absolute one in 32-bit builds, each dereferenced
/// once.
fn core_mednafen<H: Host>(
    host: &mut H,
    process: u64,
    core_address: u64,
    core_size: u64,
    is_64_bit: bool,
) -> Option<u64> {
    if is_64_bit {
        let sig = Pattern::new(vec![
            PatternToken::Exact(0x48),
            PatternToken::Exact(0x8B),
            PatternToken::Exact(0x05),
            PatternToken::Wildcard,
            PatternToken::Wildcard,
            PatternToken::Wildcard,
            PatternToken::Wildcard,
            PatternToken::Exact(0x41),
            PatternToken::Exact(0x81),
            PatternToken::Exact(0xE4),
            PatternToken::Exact(0xFF),
            PatternToken::Exact(0xFF),
            PatternToken::Exact(0x1F),
            PatternToken::Exact(0x00),
        ]);
        let found = match scan_process_range(host, process, core_address, core_size, &sig) {
            Option::Some(a) => a,
            Option::None => { return None },
        };
        let cell = match resolve_relative(host, process, found, 3) {
            Option::Some(c) => c,
            Option::None => { return None },
        };
        read_u64_le(host, process, cell)
    } else {
        let sig = Pattern::new(vec![
            PatternToken::Exact(0xA1),
            PatternToken::Wildcard,
            PatternToken::Wildcard,
            PatternToken::Wildcard,
            PatternToken::Wildcard,
            PatternToken::Exact(0x81),
            PatternToken::Exact(0xE3),
            PatternToken::Exact(0xFF),
            PatternToken::Exact(0xFF),
            PatternToken::Exact(0x1F),
            PatternToken::Exact(0x00),
        ]);
        let found = match scan_process_range(host, process, core_address, core_size, &sig) {
            Option::Some(a) => a,
            Option::None => { return None },
        };
        deref_absolute_u32(host, process, found, 1)
    }
}

/// The SwanStation core, with the same two encodings under its own
/// patterns.
fn core_swanstation<H: Host>(
    host: &mut H,
    process: u64,
    core_address: u64,
    core_size: u64,
    is_64_bit: bool,
) -> Option<u64> {
    if is_64_bit {
        let sig = Pattern::new(vec![
            PatternToken::Exact(0x48),
            PatternToken::Exact(0x89),
            PatternToken::Exact(0x0D),
            PatternToken::Wildcard,
            PatternToken::Wildcard,
            PatternToken::Wildcard,
            PatternToken::Wildcard,
            PatternToken::Exact(0x89),
            PatternToken::Exact(0x35),
            PatternToken::Wildcard,
            PatternToken::Wildcard,
            PatternToken::Wildcard,
            PatternToken::Wildcard,
            PatternToken::Exact(0x89),
            PatternToken::Exact(0x3D),
        ]);
        let found = match scan_process_range(host, process, core_address, core_size, &sig) {
            Option::Some(a) => a,
            Option::None => { return None },
        };
        let cell = match resolve_relative(host, process, found, 3) {
            Option::Some(c) => c,
            Option::None => { return None },
        };
        read_u64_le(host, process, cell)
    } else {
        let sig = Pattern::new(vec![
            PatternToken::Exact(0xA1),
            PatternToken::Wildcard,
            PatternToken::Wildcard,
            PatternToken::Wildcard,
            PatternToken::Wildcard,
            PatternToken::Exact(0x23),
            PatternToken::Exact(0xCB),
            PatternToken::Exact(0x8B),
        ]);
        let found = match scan_process_range(host, process, core_address, core_size, &sig) {
            Option::Some(a) => a,
            Option::None => { return None },
        };
        deref_absolute_u32(host, process, found, 1)
    }
}

/// The PCSX ReARMed core: one more dereference than the others in 64-bit
/// builds, and the absolute operand sitting behind the masking constant in
/// 32-bit builds.
fn core_rearmed<H: Host>(
    host: &mut H,
    process: u64,
    core_address: u64,
    core_size: u64,
    is_64_bit: bool,
) -> Option<u64> {
    if is_64_bit {
        let sig = Pattern::new(vec![
            PatternToken::Exact(0x48),
            PatternToken::Exact(0x8B),
            PatternToken::Exact(0x35),
            PatternToken::Wildcard,
            PatternToken::Wildcard,
            PatternToken::Wildcard,
            PatternToken::Wildcard,
            PatternToken::Exact(0x81),
            PatternToken::Exact(0xE2),
        ]);
        let found = match scan_process_range(host, process, core_address, core_size, &sig) {
            Option::Some(a) => a,
            Option::None => { return None },
        };
        let cell = match resolve_relative(host, process, found, 3) {
            Option::Some(c) => c,
            Option::None => { return None },
        };
        let pointer = match read_u64_le(host, process, cell) {
            Option::Some(p) => p,
            Option::None => { return None },
        };
        read_u64_le(host, process, pointer)
    } else {
        let sig = Pattern::new(vec![
            PatternToken::Exact(0xFF),
            PatternToken::Exact(0xFF),
            PatternToken::Exact(0x1F),
            PatternToken::Exact(0x00),
            PatternToken::Exact(0x89),
            PatternToken::Wildcard,
            PatternToken::Wildcard,
            PatternToken::Wildcard,
            PatternToken::Exact(0xA1),
        ]);
        let found = match scan_process_range(host, process, core_address, core_size, &sig) {
            Option::Some(a) => a,
            Option::None => { return None },
        };
        deref_absolute_u32(host, process, found, 9)
    }
}

/// Reads the absolute 32-bit operand `skip` bytes into the match and
/// dereferences it once.
fn deref_absolute_u32<H: Host>(host: &mut H, process: u64, found: u64, skip: u64) -> Option<
    u64,
> {
    let operand = match try_add(found, skip) {
        Option::Some(a) => a,
        Option::None => { return None },
    };
    let cell = match read_u32_le(host, process, operand) {
        Option::Some(c) => c,
        Option::None => { return None },
    };
    match read_u32_le(host, process, cell as u64) {
        Option::Some(w) => Some(w as u64),
        Option::None => None,
    }
}

/// Probes one byte at the core module's base: the pointer chain stays
/// valid exactly while the core stays loaded. Reads nothing else and
/// changes nothing.
pub fn keep_alive<H: Host>(host: &mut H, game: &ProcessInfo) -> bool {
    read_u8(host, game.emulator_process, game.anchor).is_some()
}

} // verus!
