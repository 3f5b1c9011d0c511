//! Locator for PCSX-Redux: the 64-bit build embeds the address of a
//! pointer table whose entry, twice dereferenced, is the RAM base; the
//! 32-bit build keeps a direct pointer cell in a writable region. Either
//! way the first cell is kept as the revalidation anchor together with the
//! value found behind it, and revalidation checks that the value is still
//! there.

use vstd::prelude::*;
use super::ProcessInfo;
use crate::host::Host;
use crate::scanner::{scan_process_range, scan_writable_regions, Pattern, PatternToken};
use crate::shared::{check_for_64_bit, read_u32_le, read_u64_le, read_u8, try_add};

verus! {

/// Locates the emulated RAM, branching on the build's architecture, and
/// caches the anchor cell and its current value for revalidation. A
/// failed locate commits nothing.
pub fn pcsx_redux<H: Host>(host: &mut H, game: &mut ProcessInfo) -> (r: Option<u64>)
    ensures
        r is None ==> *final(game) == *old(game),
        final(game).wram() == old(game).wram(),
        final(game).emulator() == old(game).emulator(),
        final(game).process() == old(game).process(),
{
    let process = game.emulator_process;
    let base = match host.module_address(process, "pcsx-redux.main") {
        Option::Some(a) => a,
        Option::None => { return None },
    };
    let size = match host.module_size(process, "pcsx-redux.main") {
        Option::Some(s) => s,
        Option::None => { return None },
    };
    let is_64_bit = check_for_64_bit(host, process, base);

    if is_64_bit {
        let sig_base = Pattern::new(vec![
            PatternToken::Exact(0x48),
            PatternToken::Exact(0xB9),
            PatternToken::Wildcard,
            PatternToken::Wildcard,
            PatternToken::Wildcard,
            PatternToken::Wildcard,
            PatternToken::Wildcard,
            PatternToken::Wildcard,
            PatternToken::Wildcard,
            PatternToken::Wildcard,
            PatternToken::Exact(0xE8),
            PatternToken::Wildcard,
            PatternToken::Wildcard,
            PatternToken::Wildcard,
            PatternToken::Wildcard,
            PatternToken::Exact(0xC7),
            PatternToken::Exact(0x85),
            PatternToken::Wildcard,
            PatternToken::Wildcard,
            PatternToken::Wildcard,
            PatternToken::Wildcard,
            PatternToken::Exact(0x00),
            PatternToken::Exact(0x00),
            PatternToken::Exact(0x00),
            PatternToken::Exact(0x00),
        ]);
        let sig_offset = Pattern::new(vec![
            PatternToken::Exact(0x89),
            PatternToken::Exact(0xD1),
            PatternToken::Exact(0xC1),
            PatternToken::Exact(0xE9),
            PatternToken::Exact(0x10),
            PatternToken::Exact(0x48),
            PatternToken::Exact(0x8B),
            PatternToken::Wildcard,
            PatternToken::Wildcard,
        ]);
        let found = match scan_process_range(host, process, base, size, &sig_base) {
            Option::Some(a) => a,
            Option::None => { return None },
        };
        let cell = match try_add(found, 2) {
            Option::Some(a) => a,
            Option::None => { return None },
        };
        let table = match read_u64_le(host, process, cell) {
            Option::Some(v) => v,
            Option::None => { return None },
        };
        let found_offset = match scan_process_range(host, process, base, size, &sig_offset) {
            Option::Some(a) => a,
            Option::None => { return None },
        };
        let offset_operand = match try_add(found_offset, 8) {
            Option::Some(a) => a,
            Option::None => { return None },
        };
        let table_offset = match read_u8(host, process, offset_operand) {
            Option::Some(o) => o,
            Option::None => { return None },
        };
        let entry = match try_add(table, table_offset as u64) {
            Option::Some(a) => a,
            Option::None => { return None },
        };
        let pointer = match read_u64_le(host, process, entry) {
            Option::Some(p) => p,
            Option::None => { return None },
        };
        let wram = match read_u64_le(host, process, pointer) {
            Option::Some(w) => w,
            Option::None => { return None },
        };
        game.is_64_bit = true;
        game.anchor = cell;
        game.anchor_value = table;
        Some(wram)
    } else {
        let sig = Pattern::new(vec![
            PatternToken::Exact(0x8B),
            PatternToken::Exact(0x3D),
            PatternToken::Exact(0x20),
            PatternToken::Wildcard,
            PatternToken::Wildcard,
            PatternToken::Wildcard,
            PatternToken::Exact(0x0F),
            PatternToken::Exact(0xB7),
            PatternToken::Exact(0xD3),
            PatternToken::Exact(0x8B),
            PatternToken::Exact(0x04),
            PatternToken::Exact(0x95),
            PatternToken::Wildcard,
            PatternToken::Wildcard,
            PatternToken::Wildcard,
            PatternToken::Wildcard,
            PatternToken::Exact(0x21),
            PatternToken::Exact(0x05),
        ]);
        let found = match scan_writable_regions(host, process, None, &sig) {
            Option::Some(a) => a,
            Option::None => { return None },
        };
        let cell = match try_add(found, 2) {
            Option::Some(a) => a,
            Option::None => { return None },
        };
        let wram = match read_u32_le(host, process, cell) {
            Option::Some(w) => w,
            Option::None => { return None },
        };
        game.is_64_bit = false;
        game.anchor = cell;
        game.anchor_value = wram as u64;
        Some(wram as u64)
    }
}

/// Re-reads the anchor cell and checks that the value found at locate time
/// is still behind it, so an emulator-internal reallocation is noticed.
/// Changes nothing.
pub fn keep_alive<H: Host>(host: &mut H, game: &ProcessInfo) -> bool {
    if game.anchor == 0 {
        return false;
    }
    if game.is_64_bit {
        match read_u64_le(host, game.emulator_process, game.anchor) {
            Option::Some(value) => value == game.anchor_value,
            Option::None => false,
        }
    } else {
        match read_u32_le(host, game.emulator_process, game.anchor) {
            Option::Some(value) => value as u64 == game.anchor_value,
            Option::None => false,
        }
    }
}

} // verus!
