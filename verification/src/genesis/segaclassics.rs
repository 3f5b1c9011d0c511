//! Locator for SEGA Classics / SEGA Game Room: depending on the build, the
//! wrapper DLL or the main module holds a store instruction whose operand
//! names a pointer cell; the cell's content is the RAM base and the cell
//! is kept as the revalidation anchor, re-read every tick.

use vstd::prelude::*;
use super::ProcessInfo;
use crate::host::Host;
use crate::scanner::{scan_process_range, Pattern, PatternToken};
use crate::shared::{read_u32_le, try_add};
use crate::Endianness;

verus! {

/// Locates the emulated RAM through one level of indirection and caches
/// the intermediate pointer cell as the revalidation anchor. A failed
/// locate commits nothing.
pub fn segaclassics<H: Host>(host: &mut H, game: &mut ProcessInfo) -> (r: Option<u64>)
    ensures
        r is None ==> *final(game) == *old(game),
        final(game).wram() == old(game).wram(),
        final(game).emulator() == old(game).emulator(),
        final(game).process() == old(game).process(),
        r is Some ==> final(game).endian() == Endianness::Little,
{
    let process = game.emulator_process;
    let operand: u64;
    let wrapper_address = host.module_address(process, "GenesisEmuWrapper.dll");
    let wrapper_size = host.module_size(process, "GenesisEmuWrapper.dll");
    if wrapper_address.is_some() && wrapper_size.is_some() {
        let sig_gameroom = Pattern::new(vec![
            PatternToken::Exact(0xC7),
            PatternToken::Exact(0x05),
            PatternToken::Wildcard,
            PatternToken::Wildcard,
            PatternToken::Wildcard,
            PatternToken::Wildcard,
            PatternToken::Wildcard,
            PatternToken::Wildcard,
            PatternToken::Wildcard,
            PatternToken::Wildcard,
            PatternToken::Exact(0xA3),
            PatternToken::Wildcard,
            PatternToken::Wildcard,
            PatternToken::Wildcard,
            PatternToken::Wildcard,
            PatternToken::Exact(0xA3),
        ]);
        let base = wrapper_address.unwrap();
        let size = wrapper_size.unwrap();
        let found = match scan_process_range(host, process, base, size, &sig_gameroom) {
            Option::Some(a) => a,
            Option::None => { return None },
        };
        operand = match try_add(found, 2) {
            Option::Some(a) => a,
            Option::None => { return None },
        };
    } else {
        let sig_classics = Pattern::new(vec![
            PatternToken::Exact(0x89),
            PatternToken::Exact(0x2D),
            PatternToken::Wildcard,
            PatternToken::Wildcard,
            PatternToken::Wildcard,
            PatternToken::Wildcard,
            PatternToken::Exact(0x89),
            PatternToken::Exact(0x0D),
        ]);
        let main = main_module(host, process);
        let (base, size) = match main {
            Option::Some(pair) => pair,
            Option::None => { return None },
        };
        let found = match scan_process_range(host, process, base, size, &sig_classics) {
            Option::Some(a) => a,
            Option::None => { return None },
        };
        operand = match try_add(found, 8) {
            Option::Some(a) => a,
            Option::None => { return None },
        };
    }
    let cell = match read_u32_le(host, process, operand) {
        Option::Some(c) => c,
        Option::None => { return None },
    };
    let wram = match read_u32_le(host, process, cell as u64) {
        Option::Some(w) => w,
        Option::None => { return None },
    };
    game.anchor = cell as u64;
    game.endianness = Endianness::Little;
    Some(wram as u64)
}

/// Base and size of whichever of the two known launcher executables is the
/// main module, in priority order.
fn main_module<H: Host>(host: &mut H, process: u64) -> Option<(u64, u64)> {
    if let Some(base) = host.module_address(process, "SEGAGameRoom.exe") {
        if let Some(size) = host.module_size(process, "SEGAGameRoom.exe") {
            return Some((base, size));
        }
    }
    if let Some(base) = host.module_address(process, "SEGAGenesisClassics.exe") {
        if let Some(size) = host.module_size(process, "SEGAGenesisClassics.exe") {
            return Some((base, size));
        }
    }
    None
}

/// Re-derefs the cached pointer cell: while the process answers, the cell's
/// current content replaces the cached RAM base, so an emulator-internal
/// reallocation is followed without a rescan. The anchor itself never
/// moves.
pub fn keep_alive<H: Host>(host: &mut H, game: &mut ProcessInfo) -> (r: bool)
    ensures
        final(game).emulator() == old(game).emulator(),
        final(game).process() == old(game).process(),
        final(game).endian() == old(game).endian(),
        final(game).anchor() == old(game).anchor(),
        r ==> final(game).wram() is Some,
        !r ==> *final(game) == *old(game),
{
    match read_u32_le(host, game.emulator_process, game.anchor) {
        Option::Some(address) => {
            game.wram_base = Some(address as u64);
            true
        },
        Option::None => false,
    }
}

} // verus!
