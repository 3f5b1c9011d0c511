//! Locator for Gens: the main module holds a 16-bit-bus copy loop whose
//! trailing operand embeds the RAM address absolutely; a byte close by
//! tells apart the builds that store the RAM big- or little-endian.

use vstd::prelude::*;
use super::ProcessInfo;
use crate::host::Host;
use crate::scanner::{scan_process_range, Pattern, PatternToken};
use crate::shared::{read_u32_le, read_u8, try_add};
use crate::Endianness;

verus! {

/// Locates the emulated RAM inside the main module and establishes the
/// build's byte order. A failed locate commits nothing.
pub fn gens<H: Host>(host: &mut H, game: &mut ProcessInfo) -> (r: Option<u64>)
    ensures
        r is None ==> *final(game) == *old(game),
        final(game).wram() == old(game).wram(),
        final(game).emulator() == old(game).emulator(),
        final(game).process() == old(game).process(),
        final(game).anchor() == old(game).anchor(),
{
    let sig = Pattern::new(vec![
        PatternToken::Exact(0x72),
        PatternToken::Wildcard,
        PatternToken::Exact(0x81),
        PatternToken::Wildcard,
        PatternToken::Exact(0xFF),
        PatternToken::Exact(0xFF),
        PatternToken::Exact(0x00),
        PatternToken::Exact(0x00),
        PatternToken::Exact(0x66),
        PatternToken::Exact(0x8B),
    ]);
    let process = game.emulator_process;
    let base = match host.module_address(process, "gens.exe") {
        Option::Some(a) => a,
        Option::None => { return None },
    };
    let size = match host.module_size(process, "gens.exe") {
        Option::Some(s) => s,
        Option::None => { return None },
    };
    let found = match scan_process_range(host, process, base, size, &sig) {
        Option::Some(a) => a,
        Option::None => { return None },
    };
    let operand = match try_add(found, 11) {
        Option::Some(a) => a,
        Option::None => { return None },
    };
    let flag_address = match try_add(operand, 4) {
        Option::Some(a) => a,
        Option::None => { return None },
    };
    let flag = match read_u8(host, process, flag_address) {
        Option::Some(b) => b,
        Option::None => { return None },
    };
    let wram = match read_u32_le(host, process, operand) {
        Option::Some(w) => w,
        Option::None => { return None },
    };
    game.endianness = if flag == 0x86 {
        Endianness::Big
    } else {
        Endianness::Little
    };
    Some(wram as u64)
}

/// Gens's RAM pointer is stable for the process's lifetime: there is
/// nothing to re-check each tick.
pub fn keep_alive() -> (r: bool)
    ensures
        r,
{
    true
}

} // verus!
