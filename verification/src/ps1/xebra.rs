//! Locator for XEBRA: a call-and-jump prologue in the main module leads,
//! through an instruction-pointer-relative reference and a fixed field
//! offset, to a double-indirect RAM pointer.

use vstd::prelude::*;
use super::ProcessInfo;
use crate::host::Host;
use crate::scanner::{scan_process_range, Pattern, PatternToken};
use crate::shared::{read_u32_le, resolve_relative, try_add};

verus! {

/// Locates the emulated RAM through two levels of indirection. A failed
/// locate commits nothing.
pub fn xebra<H: Host>(host: &mut H, game: &mut ProcessInfo) -> (r: Option<u64>)
    ensures
        r is None ==> *final(game) == *old(game),
        *final(game) == *old(game),
{
    let sig = Pattern::new(vec![
        PatternToken::Exact(0xE8),
        PatternToken::Wildcard,
        PatternToken::Wildcard,
        PatternToken::Wildcard,
        PatternToken::Wildcard,
        PatternToken::Exact(0xE9),
        PatternToken::Wildcard,
        PatternToken::Wildcard,
        PatternToken::Wildcard,
        PatternToken::Wildcard,
        PatternToken::Exact(0x89),
        PatternToken::Exact(0xC8),
        PatternToken::Exact(0xC1),
        PatternToken::Exact(0xF8),
        PatternToken::Exact(0x10),
    ]);
    let process = game.emulator_process;
    let base = match host.module_address(process, "XEBRA.EXE") {
        Option::Some(a) => a,
        Option::None => { return None },
    };
    let size = match host.module_size(process, "XEBRA.EXE") {
        Option::Some(s) => s,
        Option::None => { return None },
    };
    let found = match scan_process_range(host, process, base, size, &sig) {
        Option::Some(a) => a,
        Option::None => { return None },
    };
    let target = match resolve_relative(host, process, found, 1) {
        Option::Some(t) => t,
        Option::None => { return None },
    };
    let field = match try_add(target, 0x16A) {
        Option::Some(a) => a,
        Option::None => { return None },
    };
    let cell = match read_u32_le(host, process, field) {
        Option::Some(c) => c,
        Option::None => { return None },
    };
    let wram = match read_u32_le(host, process, cell as u64) {
        Option::Some(w) => w,
        Option::None => { return None },
    };
    Some(wram as u64)
}

/// XEBRA's RAM pointer is stable for the process's lifetime: there is
/// nothing to re-check each tick.
pub fn keep_alive() -> (r: bool)
    ensures
        r,
{
    true
}

} // verus!
