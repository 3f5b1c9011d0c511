//! Locator for Dolphin: the two console RAM banks are found purely by
//! their exact region sizes in the process's region list — MEM1 by size
//! `0x2000000`, MEM2 by size `0x4000000` — with a proximity guard that
//! rejects a MEM2 candidate lying implausibly far beyond an already-found
//! MEM1. Discovery is atomic: either both banks are found or neither is.

use vstd::prelude::*;
use super::ProcessInfo;
use crate::host::Host;
use crate::shared::{read_u8, MemoryRegion};

verus! {

/// The accumulator-passing walk over the region list that
/// [`find_ram_regions`] performs, one region at a time, left to right;
/// zero stands for a bank not found yet.
///
/// A size-`0x4000000` region is taken as MEM2 unless one is already held
/// or it lies more than `0x10000000` past the held MEM1 candidate — the
/// walk then stops, rejecting a stale region of the right size. A
/// size-`0x2000000` region (re)places the MEM1 candidate. The walk stops
/// as soon as both banks are held.
pub open spec fn dolphin_scan(regions: Seq<MemoryRegion>, mem1: u64, mem2: u64) -> (u64, u64)
    decreases regions.len(),
{
    if regions.len() == 0 {
        (mem1, mem2)
    } else {
        let region = regions[0];
        if mem2 == 0 && region.size == 0x4000000 {
            if mem1 != 0 && region.base > mem1 + 0x10000000 {
                (mem1, mem2)
            } else {
                if mem1 != 0 && region.base != 0 {
                    (mem1, region.base)
                } else {
                    dolphin_scan(regions.skip(1), mem1, region.base)
                }
            }
        } else if region.size == 0x2000000 {
            if region.base != 0 && mem2 != 0 {
                (region.base, mem2)
            } else {
                dolphin_scan(regions.skip(1), region.base, mem2)
            }
        } else {
            dolphin_scan(regions.skip(1), mem1, mem2)
        }
    }
}

/// Searches the region list, in the order supplied, for the two RAM banks
/// by their exact sizes. Returns both base addresses, or nothing: a
/// partial find is never reported.
pub fn find_ram_regions(regions: &Vec<MemoryRegion>) -> (r: Option<(u64, u64)>)
    ensures
        ({
            let (m1, m2) = dolphin_scan(regions@, 0, 0);
            if m1 != 0 && m2 != 0 {
                r == Some((m1, m2))
            } else {
                r is None
            }
        }),
        r matches Some(p) ==> p.0 != 0 && p.1 != 0,
{
    let len = regions.len();
    let mut mem1: u64 = 0;
    let mut mem2: u64 = 0;
    let mut i: usize = 0;
    proof {
        assert(regions@.skip(0) =~= regions@);
    }
    while i < len
        invariant_except_break
            len == regions@.len(),
            i <= len,
            !(mem1 != 0 && mem2 != 0),
            dolphin_scan(regions@, 0, 0) == dolphin_scan(regions@.skip(i as int), mem1, mem2),
        ensures
            dolphin_scan(regions@, 0, 0) == (mem1, mem2),
        decreases len - i,
    {
        let region = regions[i];
        proof {
            assert(regions@.skip(i as int)[0] == regions@[i as int]);
            assert(regions@.skip(i as int).skip(1) =~= regions@.skip(i as int + 1));
        }
        if mem2 == 0 && region.size == 0x4000000 {
            if mem1 != 0 && mem1 <= u64::MAX - 0x10000000 && region.base > mem1 + 0x10000000 {
                break;
            }
            mem2 = region.base;
        } else if region.size == 0x2000000 {
            mem1 = region.base;
        }
        if mem1 != 0 && mem2 != 0 {
            break;
        }
        i += 1;
    }
    if mem1 == 0 || mem2 == 0 {
        None
    } else {
        Some((mem1, mem2))
    }
}

/// Locates MEM1 and MEM2 from the host's region list. Discovery is
/// atomic — both addresses or neither — and a locate commits nothing to
/// the session either way.
pub fn dolphin<H: Host>(host: &mut H, game: &mut ProcessInfo) -> (r: (Option<u64>, Option<u64>))
    ensures
        *final(game) == *old(game),
        r.0 is Some <==> r.1 is Some,
{
    let regions = host.memory_regions(game.emulator_process);
    match find_ram_regions(&regions) {
        Option::Some((mem1, mem2)) => (Some(mem1), Some(mem2)),
        Option::None => (None, None),
    }
}

/// Probes one byte at the base of each bank: the resolved pair stays
/// valid exactly while both regions stay mapped. Changes nothing.
pub fn keep_alive<H: Host>(host: &mut H, game: &ProcessInfo) -> bool {
    let mem1 = match game.mem_1 {
        Option::Some(a) => a,
        Option::None => { return false },
    };
    let mem2 = match game.mem_2 {
        Option::Some(a) => a,
        Option::None => { return false },
    };
    if read_u8(host, game.emulator_process, mem1).is_none() {
        return false;
    }
    read_u8(host, game.emulator_process, mem2).is_some()
}

} // verus!
