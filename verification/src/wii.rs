//! Support for emulators of the Wii: attaching to a known emulator
//! process, locating the two emulated RAM banks, and serving
//! console-address-space reads.
//!
//! Two disjoint banks are served. MEM1 answers `[0, 0x017FFFFF]` and its
//! mapped alias `[0x80000000, 0x817FFFFF]`, the alias translating by
//! subtracting `0x80000000`; MEM2 answers `[0x90000000, 0x93FFFFFF]`,
//! translating by subtracting `0x90000000`. Anything else is rejected.
//! The console is big-endian, so every value is byte-order-reversed on
//! the way out.

use vstd::prelude::*;
use crate::endian::{lemma_pow256_small, pow256};
use crate::host::Host;
use crate::session::{transition_spec, SessionState};
use crate::shared::{read_value, try_add};
use crate::{Endianness, Error, Width};

pub mod dolphin;

verus! {

/// The Wii emulators this family recognises.
#[derive(Clone, Copy, Debug, PartialEq, Eq, Structural)]
pub enum Emulator {
    Dolphin,
}

/// An attached Wii emulator process together with the resolution state:
/// the two cached bank bases and the console's byte order.
#[derive(Clone, Copy, Debug)]
pub struct ProcessInfo {
    emulator_type: Emulator,
    emulator_process: u64,
    mem_1: Option<u64>,
    mem_2: Option<u64>,
    endianness: Endianness,
}

impl ProcessInfo {
    /// Which emulator the session is attached to.
    pub closed spec fn emulator(&self) -> Emulator {
        self.emulator_type
    }

    /// The host handle of the attached process.
    pub closed spec fn process(&self) -> u64 {
        self.emulator_process
    }

    /// The cached MEM1 base, when one is resolved.
    pub closed spec fn mem1(&self) -> Option<u64> {
        self.mem_1
    }

    /// The cached MEM2 base, when one is resolved.
    pub closed spec fn mem2(&self) -> Option<u64> {
        self.mem_2
    }

    /// The byte order of the emulated console.
    pub closed spec fn endian(&self) -> Endianness {
        self.endianness
    }

    /// A freshly attached session: no bank is resolved yet. The one
    /// emulator worth speaking of stores the console's memory big-endian.
    fn fresh(emulator_type: Emulator, process: u64) -> (r: ProcessInfo)
        ensures
            r.emulator() == emulator_type,
            r.process() == process,
            r.mem1() is None,
            r.mem2() is None,
            r.endian() == Endianness::Big,
    {
        ProcessInfo {
            emulator_type,
            emulator_process: process,
            mem_1: None,
            mem_2: None,
            endianness: Endianness::Big,
        }
    }

    /// Attaches to the first running process whose name matches a known
    /// emulator.
    pub fn attach_process<H: Host>(host: &mut H) -> (r: Option<ProcessInfo>)
        ensures
            r matches Some(info) ==> info.mem1() is None && info.mem2() is None,
    {
        if let Some(process) = host.attach("Dolphin.exe") {
            return Some(ProcessInfo::fresh(Emulator::Dolphin, process));
        }
        None
    }

    /// Runs the attached emulator's locator. Both bank addresses come
    /// back, or neither: a failed locate commits nothing and a partial
    /// find is never reported.
    pub fn look_for_wram<H: Host>(&mut self, host: &mut H) -> (r: (Option<u64>, Option<u64>))
        ensures
            *final(self) == *old(self),
            r.0 is Some <==> r.1 is Some,
    {
        match self.emulator_type {
            Emulator::Dolphin => dolphin::dolphin(host, self),
        }
    }

    /// Runs the attached emulator's cheap revalidation; it reads the
    /// target process and changes nothing here.
    pub fn keep_alive<H: Host>(&self, host: &mut H) -> bool {
        match self.emulator_type {
            Emulator::Dolphin => dolphin::keep_alive(host, self),
        }
    }
}

/// One attachment session for the Wii. Created empty; driven by
/// [`update`]; reads are served only while it reports ready.
pub struct State {
    proc: Option<ProcessInfo>,
}

impl State {
    /// The externally meaningful state of the session: ready needs both
    /// banks resolved.
    pub closed spec fn session_state(&self) -> SessionState {
        match self.proc {
            Option::None => SessionState::NoProcess,
            Option::Some(info) => if info.mem1() is Some && info.mem2() is Some {
                SessionState::Ready
            } else {
                SessionState::Attached
            },
        }
    }

    /// The cached MEM1 base, when the session is ready.
    pub closed spec fn resolved_mem1(&self) -> Option<u64> {
        match self.proc {
            Option::None => Option::None,
            Option::Some(info) => info.mem1(),
        }
    }

    /// The cached MEM2 base, when the session is ready.
    pub closed spec fn resolved_mem2(&self) -> Option<u64> {
        match self.proc {
            Option::None => Option::None,
            Option::Some(info) => info.mem2(),
        }
    }

    /// A fresh session: not attached to anything.
    pub fn new() -> (s: State)
        ensures
            s.session_state() is NoProcess,
    {
        State { proc: None }
    }

    /// Whether reads can currently be served.
    pub fn is_ready(&self) -> (r: bool)
        ensures
            r == (self.session_state() is Ready),
    {
        match &self.proc {
            Option::Some(info) => info.mem_1.is_some() && info.mem_2.is_some(),
            Option::None => false,
        }
    }

    /// The cached bank bases; a pair exactly while the session is ready.
    pub fn ram_bases(&self) -> (r: Option<(u64, u64)>)
        ensures
            r is Some <==> self.session_state() is Ready,
            r matches Some(p) ==> self.resolved_mem1() == Some(p.0) && self.resolved_mem2()
                == Some(p.1),
    {
        match &self.proc {
            Option::Some(info) => {
                match (info.mem_1, info.mem_2) {
                    (Option::Some(m1), Option::Some(m2)) => Some((m1, m2)),
                    _ => None,
                }
            },
            Option::None => None,
        }
    }
}

/// Advances the session one tick: attaches, locates and revalidates as the
/// attachment machine prescribes, and reports whether reads can be served.
/// The new session state is always one the machine reaches from the old by
/// some tick outcome.
pub fn update<H: Host>(host: &mut H, state: &mut State) -> (r: bool)
    ensures
        r == (final(state).session_state() is Ready),
        exists|process_open: bool, attach_ok: bool, locate_ok: bool, validate_ok: bool|
            final(state).session_state() == transition_spec(
                old(state).session_state(),
                process_open,
                attach_ok,
                locate_ok,
                validate_ok,
            ),
{
    if state.proc.is_none() {
        state.proc = ProcessInfo::attach_process(host);
    }

    let mut game = match state.proc {
        Option::Some(g) => g,
        Option::None => {
            assert(state.session_state() == transition_spec(
                old(state).session_state(),
                true,
                false,
                true,
                true,
            ));
            return false;
        },
    };

    let process_open = host.is_open(game.emulator_process);
    if !process_open {
        state.proc = None;
        assert(state.session_state() == transition_spec(
            old(state).session_state(),
            false,
            true,
            true,
            true,
        ));
        return false;
    }

    let locate_ok: bool;
    if game.mem_1.is_none() || game.mem_2.is_none() {
        let (mem1, mem2) = game.look_for_wram(host);
        game.mem_1 = mem1;
        game.mem_2 = mem2;
        locate_ok = mem1.is_some() && mem2.is_some();
        if !locate_ok {
            state.proc = Some(game);
            assert(state.session_state() == transition_spec(
                old(state).session_state(),
                true,
                true,
                false,
                true,
            ));
            return false;
        }
    } else {
        locate_ok = true;
    }

    let validate_ok = game.keep_alive(host);
    if !validate_ok {
        game.mem_1 = None;
        game.mem_2 = None;
    }
    let ready = game.mem_1.is_some() && game.mem_2.is_some();
    state.proc = Some(game);
    assert(state.session_state() == transition_spec(
        old(state).session_state(),
        true,
        true,
        locate_ok,
        validate_ok,
    ));
    ready
}

/// Whether a logical address lies inside MEM1's window: the raw range or
/// its mapped alias.
pub open spec fn mem1_valid(address: u32) -> bool {
    address <= 0x017FFFFF || (0x80000000 <= address && address <= 0x817FFFFF)
}

/// Whether a logical address lies inside MEM2's window.
pub open spec fn mem2_valid(address: u32) -> bool {
    0x90000000 <= address && address <= 0x93FFFFFF
}

/// Whether a logical address lies inside either bank's window.
pub open spec fn wii_valid(address: u32) -> bool {
    mem1_valid(address) || mem2_valid(address)
}

/// The MEM1 offset a valid MEM1 address translates to: a mapped alias
/// drops its fixed `0x80000000` base, a raw offset passes through.
pub open spec fn mem1_host_offset(address: u32) -> u32 {
    if address >= 0x80000000 {
        (address - 0x80000000) as u32
    } else {
        address
    }
}

/// The MEM2 offset a valid MEM2 address translates to: the fixed
/// `0x90000000` base is dropped.
pub open spec fn mem2_host_offset(address: u32) -> u32 {
    (address - 0x90000000) as u32
}

/// A raw MEM1 offset and its mapped alias address the identical host
/// offset, so a read through either form returns the same bytes.
pub proof fn lemma_mem1_mirrored(address: u32)
    requires
        address <= 0x017FFFFF,
    ensures
        mem1_valid(address),
        mem1_valid((address + 0x80000000) as u32),
        mem1_host_offset((address + 0x80000000) as u32) == mem1_host_offset(address),
{
}

/// The MEM1 address translator: valid MEM1 addresses map to their offset,
/// everything else is rejected as out of range.
pub fn translate_mem_1(address: u32) -> (r: Result<u32, Error>)
    ensures
        mem1_valid(address) ==> r == Result::<u32, Error>::Ok(mem1_host_offset(address)),
        !mem1_valid(address) ==> r == Result::<u32, Error>::Err(Error::OutOfRange),
{
    if (address > 0x017FFFFF && address < 0x80000000) || address > 0x817FFFFF {
        return Err(Error::OutOfRange);
    }
    if address >= 0x80000000 {
        Ok(address - 0x80000000)
    } else {
        Ok(address)
    }
}

/// The MEM2 address translator: valid MEM2 addresses map to their offset,
/// everything else is rejected as out of range.
pub fn translate_mem_2(address: u32) -> (r: Result<u32, Error>)
    ensures
        mem2_valid(address) ==> r == Result::<u32, Error>::Ok(mem2_host_offset(address)),
        !mem2_valid(address) ==> r == Result::<u32, Error>::Err(Error::OutOfRange),
{
    if address < 0x90000000 || address > 0x93FFFFFF {
        return Err(Error::OutOfRange);
    }
    Ok(address - 0x90000000)
}

/// Reads a value from whichever bank answers the address, converting from
/// the console's big-endian byte order.
///
/// An address outside both windows is rejected whatever the session
/// state; a valid address needs a ready session; with both, only a
/// host-level read failure is left to report.
pub fn read<H: Host>(host: &mut H, state: &State, address: u32, width: Width) -> (r: Result<
    u32,
    Error,
>)
    ensures
        !wii_valid(address) ==> r == Result::<u32, Error>::Err(Error::OutOfRange),
        wii_valid(address) && !(state.session_state() is Ready) ==> r == Result::<u32, Error>::Err(
            Error::NotReady,
        ),
        wii_valid(address) && state.session_state() is Ready ==> (r is Ok || r == Result::<
            u32,
            Error,
        >::Err(Error::ReadFault)),
        r matches Ok(v) ==> v < pow256(width.spec_len()),
{
    if address <= 0x017FFFFF || (address >= 0x80000000 && address <= 0x817FFFFF) {
        read_from_mem_1(host, state, address, width)
    } else if address >= 0x90000000 && address <= 0x93FFFFFF {
        read_from_mem_2(host, state, address, width)
    } else {
        Err(Error::OutOfRange)
    }
}

/// Reads a value from MEM1, converting from the console's big-endian byte
/// order. Accepts raw offsets up to `0x017FFFFF` and mapped addresses
/// `0x80000000..=0x817FFFFF`; rejects everything else whatever the
/// session state.
pub fn read_from_mem_1<H: Host>(host: &mut H, state: &State, address: u32, width: Width) -> (r:
    Result<u32, Error>)
    ensures
        !mem1_valid(address) ==> r == Result::<u32, Error>::Err(Error::OutOfRange),
        mem1_valid(address) && !(state.session_state() is Ready) ==> r == Result::<
            u32,
            Error,
        >::Err(Error::NotReady),
        mem1_valid(address) && state.session_state() is Ready ==> (r is Ok || r == Result::<
            u32,
            Error,
        >::Err(Error::ReadFault)),
        r matches Ok(v) ==> v < pow256(width.spec_len()),
{
    let offset = match translate_mem_1(address) {
        Ok(o) => o,
        Err(e) => { return Err(e) },
    };
    let info = match &state.proc {
        Option::Some(info) => info,
        Option::None => { return Err(Error::NotReady) },
    };
    if info.mem_1.is_none() || info.mem_2.is_none() {
        return Err(Error::NotReady);
    }
    let base = info.mem_1.unwrap();
    read_at(host, info.emulator_process, base, offset, width, info.endianness)
}

/// Reads a value from MEM2, converting from the console's big-endian byte
/// order. Accepts mapped addresses `0x90000000..=0x93FFFFFF`; rejects
/// everything else whatever the session state.
pub fn read_from_mem_2<H: Host>(host: &mut H, state: &State, address: u32, width: Width) -> (r:
    Result<u32, Error>)
    ensures
        !mem2_valid(address) ==> r == Result::<u32, Error>::Err(Error::OutOfRange),
        mem2_valid(address) && !(state.session_state() is Ready) ==> r == Result::<
            u32,
            Error,
        >::Err(Error::NotReady),
        mem2_valid(address) && state.session_state() is Ready ==> (r is Ok || r == Result::<
            u32,
            Error,
        >::Err(Error::ReadFault)),
        r matches Ok(v) ==> v < pow256(width.spec_len()),
{
    let offset = match translate_mem_2(address) {
        Ok(o) => o,
        Err(e) => { return Err(e) },
    };
    let info = match &state.proc {
        Option::Some(info) => info,
        Option::None => { return Err(Error::NotReady) },
    };
    if info.mem_1.is_none() || info.mem_2.is_none() {
        return Err(Error::NotReady);
    }
    let base = info.mem_2.unwrap();
    read_at(host, info.emulator_process, base, offset, width, info.endianness)
}

/// The shared tail of the read paths: the host read at `base + offset` and
/// the verified decode, with a host failure reported as a read fault.
fn read_at<H: Host>(
    host: &mut H,
    process: u64,
    base: u64,
    offset: u32,
    width: Width,
    endian: Endianness,
) -> (r: Result<u32, Error>)
    ensures
        r is Ok || r == Result::<u32, Error>::Err(Error::ReadFault),
        r matches Ok(v) ==> v < pow256(width.spec_len()),
{
    let address = match try_add(base, offset as u64) {
        Option::Some(a) => a,
        Option::None => { return Err(Error::ReadFault) },
    };
    let len = width.len();
    match read_value(host, process, address, len, endian) {
        Option::Some(v) => {
            proof {
                lemma_pow256_small();
            }
            Ok(v as u32)
        },
        Option::None => Err(Error::ReadFault),
    }
}

} // verus!
