//! Locator for pSX: four generations of the executable embed the RAM
//! pointer cell behind slightly different instruction sequences; the
//! alternatives are tried in order, newest first, and the first match
//! wins.

use vstd::prelude::*;
use super::ProcessInfo;
use crate::host::Host;
use crate::scanner::{scan_process_range, Pattern, PatternToken};
use crate::shared::{read_u32_le, try_add};

verus! {

/// Locates the emulated RAM inside the main module through one level of
/// indirection, trying each known build's pattern in order. A failed
/// locate commits nothing; a RAM pointer of zero counts as failure.
pub fn psxfin<H: Host>(host: &mut H, game: &mut ProcessInfo) -> (r: Option<u64>)
    ensures
        r is None ==> *final(game) == *old(game),
        *final(game) == *old(game),
{
    let process = game.emulator_process;
    let base = match host.module_address(process, "psxfin.exe") {
        Option::Some(a) => a,
        Option::None => { return None },
    };
    let size = match host.module_size(process, "psxfin.exe") {
        Option::Some(s) => s,
        Option::None => { return None },
    };

    let sig_v13 = Pattern::new(vec![
        PatternToken::Exact(0x8B),
        PatternToken::Exact(0x15),
        PatternToken::Wildcard,
        PatternToken::Wildcard,
        PatternToken::Wildcard,
        PatternToken::Wildcard,
        PatternToken::Exact(0x8D),
        PatternToken::Exact(0x34),
        PatternToken::Exact(0x1A),
    ]);
    let sig_v12 = Pattern::new(vec![
        PatternToken::Exact(0xA1),
        PatternToken::Wildcard,
        PatternToken::Wildcard,
        PatternToken::Wildcard,
        PatternToken::Wildcard,
        PatternToken::Exact(0x8D),
        PatternToken::Exact(0x34),
        PatternToken::Exact(0x18),
    ]);
    let sig_v5 = Pattern::new(vec![
        PatternToken::Exact(0xA1),
        PatternToken::Wildcard,
        PatternToken::Wildcard,
        PatternToken::Wildcard,
        PatternToken::Wildcard,
        PatternToken::Exact(0x8B),
        PatternToken::Exact(0x7C),
        PatternToken::Exact(0x24),
        PatternToken::Exact(0x14),
    ]);
    let sig_v1 = Pattern::new(vec![
        PatternToken::Exact(0xA1),
        PatternToken::Wildcard,
        PatternToken::Wildcard,
        PatternToken::Wildcard,
        PatternToken::Wildcard,
        PatternToken::Exact(0x8B),
        PatternToken::Exact(0x6C),
        PatternToken::Exact(0x24),
    ]);

    let cell: u32;
    if let Some(found) = scan_process_range(host, process, base, size, &sig_v13) {
        cell = match read_operand(host, process, found, 2) {
            Option::Some(c) => c,
            Option::None => { return None },
        };
    } else if let Some(found) = scan_process_range(host, process, base, size, &sig_v12) {
        cell = match read_operand(host, process, found, 1) {
            Option::Some(c) => c,
            Option::None => { return None },
        };
    } else if let Some(found) = scan_process_range(host, process, base, size, &sig_v5) {
        cell = match read_operand(host, process, found, 1) {
            Option::Some(c) => c,
            Option::None => { return None },
        };
    } else if let Some(found) = scan_process_range(host, process, base, size, &sig_v1) {
        cell = match read_operand(host, process, found, 1) {
            Option::Some(c) => c,
            Option::None => { return None },
        };
    } else {
        return None;
    }

    let wram = match read_u32_le(host, process, cell as u64) {
        Option::Some(w) => w,
        Option::None => { return None },
    };
    if wram == 0 {
        None
    } else {
        Some(wram as u64)
    }
}

/// The 32-bit operand `skip` bytes into the match.
fn read_operand<H: Host>(host: &mut H, process: u64, found: u64, skip: u64) -> Option<u32> {
    let operand = match try_add(found, skip) {
        Option::Some(a) => a,
        Option::None => { return None },
    };
    read_u32_le(host, process, operand)
}

/// pSX's RAM pointer is stable for the process's lifetime: there is
/// nothing to re-check each tick.
pub fn keep_alive() -> (r: bool)
    ensures
        r,
{
    true
}

} // verus!
