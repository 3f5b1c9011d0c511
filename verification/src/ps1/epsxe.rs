//! Locator for ePSXe: the main module embeds the RAM address as an
//! absolute 32-bit operand right after a fixed shift-and-index fragment.

use vstd::prelude::*;
use super::ProcessInfo;
use crate::host::Host;
use crate::scanner::{scan_process_range, Pattern, PatternToken};
use crate::shared::{read_u32_le, try_add};

verus! {

/// Locates the emulated RAM inside the main module. A failed locate
/// commits nothing.
pub fn epsxe<H: Host>(host: &mut H, game: &mut ProcessInfo) -> (r: Option<u64>)
    ensures
        r is None ==> *final(game) == *old(game),
        *final(game) == *old(game),
{
    let sig = Pattern::new(vec![
        PatternToken::Exact(0xC1),
        PatternToken::Exact(0xE1),
        PatternToken::Exact(0x10),
        PatternToken::Exact(0x8D),
        PatternToken::Exact(0x89),
    ]);
    let process = game.emulator_process;
    let base = match host.module_address(process, "ePSXe.exe") {
        Option::Some(a) => a,
        Option::None => { return None },
    };
    let size = match host.module_size(process, "ePSXe.exe") {
        Option::Some(s) => s,
        Option::None => { return None },
    };
    let found = match scan_process_range(host, process, base, size, &sig) {
        Option::Some(a) => a,
        Option::None => { return None },
    };
    let operand = match try_add(found, 5) {
        Option::Some(a) => a,
        Option::None => { return None },
    };
    let wram = match read_u32_le(host, process, operand) {
        Option::Some(w) => w,
        Option::None => { return None },
    };
    Some(wram as u64)
}

/// ePSXe's RAM pointer is stable for the process's lifetime: there is
/// nothing to re-check each tick.
pub fn keep_alive() -> (r: bool)
    ensures
        r,
{
    true
}

} // verus!
