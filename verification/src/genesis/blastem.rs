//! Locator for BlastEm: the emulated RAM lives in a writable region of one
//! exact size, and a fragment of the 16-bit-bus address-masking code embeds
//! the RAM address as an absolute 32-bit operand.

use vstd::prelude::*;
use super::ProcessInfo;
use crate::host::Host;
use crate::scanner::{scan_writable_regions, Pattern, PatternToken};
use crate::shared::{read_u32_le, try_add};
use crate::Endianness;

verus! {

/// Locates the emulated RAM: scans every writable region of size
/// `0x101000` for the masking fragment and reads the absolute operand
/// eleven bytes into the match. BlastEm stores the RAM little-endian.
/// A failed locate commits nothing.
pub fn blastem<H: Host>(host: &mut H, game: &mut ProcessInfo) -> (r: Option<u64>)
    ensures
        r is None ==> *final(game) == *old(game),
        final(game).wram() == old(game).wram(),
        final(game).emulator() == old(game).emulator(),
        final(game).process() == old(game).process(),
        final(game).anchor() == old(game).anchor(),
        r is Some ==> final(game).endian() == Endianness::Little,
{
    let sig = Pattern::new(vec![
        PatternToken::Exact(0x72),
        PatternToken::Exact(0x0E),
        PatternToken::Exact(0x81),
        PatternToken::Exact(0xE1),
        PatternToken::Exact(0xFF),
        PatternToken::Exact(0xFF),
        PatternToken::Exact(0x00),
        PatternToken::Exact(0x00),
        PatternToken::Exact(0x66),
        PatternToken::Exact(0x8B),
        PatternToken::Exact(0x89),
        PatternToken::Wildcard,
        PatternToken::Wildcard,
        PatternToken::Wildcard,
        PatternToken::Wildcard,
        PatternToken::Exact(0xC3),
    ]);
    let process = game.emulator_process;
    let found = match scan_writable_regions(host, process, Some(0x101000), &sig) {
        Option::Some(a) => a,
        Option::None => { return None },
    };
    let operand = match try_add(found, 11) {
        Option::Some(a) => a,
        Option::None => { return None },
    };
    let wram = match read_u32_le(host, process, operand) {
        Option::Some(w) => w,
        Option::None => { return None },
    };
    game.endianness = Endianness::Little;
    Some(wram as u64)
}

/// BlastEm's RAM pointer is stable for the process's lifetime: there is
/// nothing to re-check each tick.
pub fn keep_alive() -> (r: bool)
    ensures
        r,
{
    true
}

} // verus!
