//! Locator for DuckStation: a 64-bit build whose store instruction
//! references the RAM pointer cell instruction-pointer-relatively; the
//! cell is kept as the revalidation anchor and re-read every tick.

use vstd::prelude::*;
use super::ProcessInfo;
use crate::host::Host;
use crate::scanner::{scan_process_range, Pattern, PatternToken};
use crate::shared::{read_u64_le, resolve_relative};

verus! {

/// Locates the emulated RAM through one level of indirection and caches
/// the pointer cell as the revalidation anchor. A failed locate commits
/// nothing.
pub fn duckstation<H: Host>(host: &mut H, game: &mut ProcessInfo) -> (r: Option<u64>)
    ensures
        r is None ==> *final(game) == *old(game),
        final(game).wram() == old(game).wram(),
        final(game).emulator() == old(game).emulator(),
        final(game).process() == old(game).process(),
{
    let sig = Pattern::new(vec![
        PatternToken::Exact(0x48),
        PatternToken::Exact(0x89),
        PatternToken::Exact(0x0D),
        PatternToken::Wildcard,
        PatternToken::Wildcard,
        PatternToken::Wildcard,
        PatternToken::Wildcard,
        PatternToken::Exact(0xB8),
    ]);
    let process = game.emulator_process;
    let (base, size) = match main_module(host, process) {
        Option::Some(pair) => pair,
        Option::None => { return None },
    };
    let found = match scan_process_range(host, process, base, size, &sig) {
        Option::Some(a) => a,
        Option::None => { return None },
    };
    let cell = match resolve_relative(host, process, found, 3) {
        Option::Some(c) => c,
        Option::None => { return None },
    };
    let wram = match read_u64_le(host, process, cell) {
        Option::Some(w) => w,
        Option::None => { return None },
    };
    game.anchor = cell;
    Some(wram)
}

/// Base and size of whichever of the two known DuckStation executables is
/// the main module, in priority order.
fn main_module<H: Host>(host: &mut H, process: u64) -> Option<(u64, u64)> {
    if let Some(base) = host.module_address(process, "duckstation-qt-x64-ReleaseLTCG.exe") {
        if let Some(size) = host.module_size(process, "duckstation-qt-x64-ReleaseLTCG.exe") {
            return Some((base, size));
        }
    }
    if let Some(base) = host.module_address(process, "duckstation-nogui-x64-ReleaseLTCG.exe") {
        if let Some(size) = host.module_size(process, "duckstation-nogui-x64-ReleaseLTCG.exe") {
            return Some((base, size));
        }
    }
    None
}

/// Re-derefs the cached pointer cell: while the process answers, the
/// cell's current content replaces the cached RAM base, so an
/// emulator-internal reallocation is followed without a rescan. The anchor
/// itself never moves.
pub fn keep_alive<H: Host>(host: &mut H, game: &mut ProcessInfo) -> (r: bool)
    ensures
        final(game).emulator() == old(game).emulator(),
        final(game).process() == old(game).process(),
        final(game).anchor() == old(game).anchor(),
        final(game).cached_value() == old(game).cached_value(),
        final(game).arch64() == old(game).arch64(),
        r ==> final(game).wram() is Some,
        !r ==> *final(game) == *old(game),
{
    match read_u64_le(host, game.emulator_process, game.anchor) {
        Option::Some(address) => {
            game.wram_base = Some(address);
            true
        },
        Option::None => false,
    }
}

} // verus!
