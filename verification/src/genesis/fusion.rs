//! Locator for Fusion: the main module holds a branch whose 8-bit
//! displacement leads to an absolute operand naming a pointer cell; the
//! cell's content is the RAM base and the cell itself is kept as the
//! revalidation anchor, re-read every tick. Fusion stores the RAM
//! big-endian.

use vstd::prelude::*;
use super::ProcessInfo;
use crate::host::Host;
use crate::scanner::{scan_process_range, Pattern, PatternToken};
use crate::shared::{read_u32_le, read_u8, try_add};
use crate::Endianness;

verus! {

/// Locates the emulated RAM through one level of indirection and caches
/// the intermediate pointer cell as the revalidation anchor. A failed
/// locate commits nothing.
pub fn fusion<H: Host>(host: &mut H, game: &mut ProcessInfo) -> (r: Option<u64>)
    ensures
        r is None ==> *final(game) == *old(game),
        final(game).wram() == old(game).wram(),
        final(game).emulator() == old(game).emulator(),
        final(game).process() == old(game).process(),
        r is Some ==> final(game).endian() == Endianness::Big,
{
    let sig = Pattern::new(vec![
        PatternToken::Exact(0x75),
        PatternToken::Exact(0x2F),
        PatternToken::Exact(0x6A),
        PatternToken::Exact(0x01),
    ]);
    let process = game.emulator_process;
    let base = match host.module_address(process, "Fusion.exe") {
        Option::Some(a) => a,
        Option::None => { return None },
    };
    let size = match host.module_size(process, "Fusion.exe") {
        Option::Some(s) => s,
        Option::None => { return None },
    };
    let found = match scan_process_range(host, process, base, size, &sig) {
        Option::Some(a) => a,
        Option::None => { return None },
    };
    let ptr = match try_add(found, 1) {
        Option::Some(a) => a,
        Option::None => { return None },
    };
    let displacement = match read_u8(host, process, ptr) {
        Option::Some(d) => d,
        Option::None => { return None },
    };
    let skipped = match try_add(ptr, displacement as u64) {
        Option::Some(a) => a,
        Option::None => { return None },
    };
    let operand = match try_add(skipped, 3) {
        Option::Some(a) => a,
        Option::None => { return None },
    };
    let cell = match read_u32_le(host, process, operand) {
        Option::Some(c) => c,
        Option::None => { return None },
    };
    let wram = match read_u32_le(host, process, cell as u64) {
        Option::Some(w) => w,
        Option::None => { return None },
    };
    game.anchor = cell as u64;
    game.endianness = Endianness::Big;
    Some(wram as u64)
}

/// Re-derefs the cached pointer cell: while the process answers, the cell's
/// current content replaces the cached RAM base, so an emulator-internal
/// reallocation is followed without a rescan. The anchor itself never
/// moves.
pub fn keep_alive<H: Host>(host: &mut H, game: &mut ProcessInfo) -> (r: bool)
    ensures
        final(game).emulator() == old(game).emulator(),
        final(game).process() == old(game).process(),
        final(game).endian() == old(game).endian(),
        final(game).anchor() == old(game).anchor(),
        r ==> final(game).wram() is Some,
        !r ==> *final(game) == *old(game),
{
    match read_u32_le(host, game.emulator_process, game.anchor) {
        Option::Some(address) => {
            game.wram_base = Some(address as u64);
            true
        },
        Option::None => false,
    }
}

} // verus!
