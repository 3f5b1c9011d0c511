//! Support for emulators of the PS1 family: attaching to a known emulator
//! process, locating the emulated working RAM, and serving
//! console-address-space reads.
//!
//! The valid logical window is the raw range `[0, 0x1FFFFF]` together with
//! its KSEG-style mapped alias `[0x80000000, 0x801FFFFF]`; an aliased
//! address translates by subtracting `0x80000000`. Values are read in the
//! fixed, emulator-determined byte order, with no extra swap beyond the
//! host read.

use vstd::prelude::*;
use crate::endian::{lemma_pow256_small, pow256};
use crate::host::Host;
use crate::session::{transition_spec, SessionState};
use crate::shared::{read_value, try_add};
use crate::{Endianness, Error, Width};

pub mod duckstation;
pub mod epsxe;
pub mod pcsx_redux;
pub mod psxfin;
pub mod retroarch;
pub mod xebra;

verus! {

/// The PS1 emulators this family recognises.
#[derive(Clone, Copy, Debug, PartialEq, Eq, Structural)]
pub enum Emulator {
    Epsxe,
    PsxFin,
    Duckstation,
    Retroarch,
    PcsxRedux,
    Xebra,
}

/// An attached PS1 emulator process together with the resolution state the
/// locators maintain: the cached RAM base, the revalidation anchor, the
/// value some locators expect to find behind the anchor, and the build's
/// architecture branch.
#[derive(Clone, Copy, Debug)]
pub struct ProcessInfo {
    emulator_type: Emulator,
    emulator_process: u64,
    wram_base: Option<u64>,
    anchor: u64,
    anchor_value: u64,
    is_64_bit: bool,
}

impl ProcessInfo {
    /// Which emulator the session is attached to.
    pub closed spec fn emulator(&self) -> Emulator {
        self.emulator_type
    }

    /// The host handle of the attached process.
    pub closed spec fn process(&self) -> u64 {
        self.emulator_process
    }

    /// The cached RAM base, when one is resolved.
    pub closed spec fn wram(&self) -> Option<u64> {
        self.wram_base
    }

    /// The address revalidation re-checks each tick.
    pub closed spec fn anchor(&self) -> u64 {
        self.anchor
    }

    /// The value some locators expect behind the anchor.
    pub closed spec fn cached_value(&self) -> u64 {
        self.anchor_value
    }

    /// Whether the locator took the 64-bit branch.
    pub closed spec fn arch64(&self) -> bool {
        self.is_64_bit
    }

    /// A freshly attached session: no RAM pointer is resolved yet.
    fn fresh(emulator_type: Emulator, process: u64) -> (r: ProcessInfo)
        ensures
            r.emulator() == emulator_type,
            r.process() == process,
            r.wram() is None,
            r.anchor() == 0,
    {
        ProcessInfo {
            emulator_type,
            emulator_process: process,
            wram_base: None,
            anchor: 0,
            anchor_value: 0,
            is_64_bit: false,
        }
    }

    /// Attaches to the first running process whose name matches a known
    /// emulator, in priority order.
    pub fn attach_process<H: Host>(host: &mut H) -> (r: Option<ProcessInfo>)
        ensures
            r matches Some(info) ==> info.wram() is None,
    {
        if let Some(process) = host.attach("ePSXe.exe") {
            return Some(ProcessInfo::fresh(Emulator::Epsxe, process));
        }
        if let Some(process) = host.attach("psxfin.exe") {
            return Some(ProcessInfo::fresh(Emulator::PsxFin, process));
        }
        if let Some(process) = host.attach("duckstation-qt-x64-ReleaseLTCG.exe") {
            return Some(ProcessInfo::fresh(Emulator::Duckstation, process));
        }
        if let Some(process) = host.attach("duckstation-nogui-x64-ReleaseLTCG.exe") {
            return Some(ProcessInfo::fresh(Emulator::Duckstation, process));
        }
        if let Some(process) = host.attach("retroarch.exe") {
            return Some(ProcessInfo::fresh(Emulator::Retroarch, process));
        }
        if let Some(process) = host.attach("pcsx-redux.main") {
            return Some(ProcessInfo::fresh(Emulator::PcsxRedux, process));
        }
        if let Some(process) = host.attach("XEBRA.EXE") {
            return Some(ProcessInfo::fresh(Emulator::Xebra, process));
        }
        None
    }

    /// Runs the attached emulator's locator. A failed locate commits
    /// nothing; a successful one returns the RAM base for the caller to
    /// cache, and never touches the cached pointer itself.
    pub fn look_for_wram<H: Host>(&mut self, host: &mut H) -> (r: Option<u64>)
        ensures
            r is None ==> *final(self) == *old(self),
            final(self).wram() == old(self).wram(),
            final(self).emulator() == old(self).emulator(),
            final(self).process() == old(self).process(),
    {
        match self.emulator_type {
            Emulator::Epsxe => epsxe::epsxe(host, self),
            Emulator::PsxFin => psxfin::psxfin(host, self),
            Emulator::Duckstation => duckstation::duckstation(host, self),
            Emulator::Retroarch => retroarch::retroarch(host, self),
            Emulator::PcsxRedux => pcsx_redux::pcsx_redux(host, self),
            Emulator::Xebra => xebra::xebra(host, self),
        }
    }

    /// Runs the attached emulator's cheap revalidation. Revalidation never
    /// moves the anchor or the session identity; a locator that re-derefs
    /// its anchor refreshes the cached base on success, the rest leave the
    /// session untouched.
    pub fn keep_alive<H: Host>(&mut self, host: &mut H) -> (r: bool)
        ensures
            final(self).emulator() == old(self).emulator(),
            final(self).process() == old(self).process(),
            final(self).anchor() == old(self).anchor(),
            final(self).cached_value() == old(self).cached_value(),
            final(self).arch64() == old(self).arch64(),
            !r ==> final(self).wram() == old(self).wram(),
            r ==> (final(self).wram() == old(self).wram() || final(self).wram() is Some),
    {
        match self.emulator_type {
            Emulator::Epsxe => epsxe::keep_alive(),
            Emulator::PsxFin => psxfin::keep_alive(),
            Emulator::Duckstation => duckstation::keep_alive(host, self),
            Emulator::Retroarch => retroarch::keep_alive(host, self),
            Emulator::PcsxRedux => pcsx_redux::keep_alive(host, self),
            Emulator::Xebra => xebra::keep_alive(),
        }
    }
}

/// One attachment session for the PS1 family. Created empty; driven by
/// [`update`]; reads are served only while it reports ready.
pub struct State {
    proc: Option<ProcessInfo>,
}

impl State {
    /// The externally meaningful state of the session.
    pub closed spec fn session_state(&self) -> SessionState {
        match self.proc {
            Option::None => SessionState::NoProcess,
            Option::Some(info) => if info.wram() is Some {
                SessionState::Ready
            } else {
                SessionState::Attached
            },
        }
    }

    /// The cached RAM base, when the session is ready.
    pub closed spec fn resolved_base(&self) -> Option<u64> {
        match self.proc {
            Option::None => Option::None,
            Option::Some(info) => info.wram(),
        }
    }

    /// A fresh session: not attached to anything.
    pub fn new() -> (s: State)
        ensures
            s.session_state() is NoProcess,
    {
        State { proc: None }
    }

    /// Whether reads can currently be served.
    pub fn is_ready(&self) -> (r: bool)
        ensures
            r == (self.session_state() is Ready),
    {
        match &self.proc {
            Option::Some(info) => info.wram_base.is_some(),
            Option::None => false,
        }
    }

    /// The cached RAM base; present exactly while the session is ready.
    pub fn wram_base(&self) -> (r: Option<u64>)
        ensures
            r == self.resolved_base(),
            r is Some <==> self.session_state() is Ready,
    {
        match &self.proc {
            Option::Some(info) => info.wram_base,
            Option::None => None,
        }
    }
}

/// Advances the session one tick: attaches, locates and revalidates as the
/// attachment machine prescribes, and reports whether reads can be served.
/// The new session state is always one the machine reaches from the old by
/// some tick outcome.
pub fn update<H: Host>(host: &mut H, state: &mut State) -> (r: bool)
    ensures
        r == (final(state).session_state() is Ready),
        exists|process_open: bool, attach_ok: bool, locate_ok: bool, validate_ok: bool|
            final(state).session_state() == transition_spec(
                old(state).session_state(),
                process_open,
                attach_ok,
                locate_ok,
                validate_ok,
            ),
{
    if state.proc.is_none() {
        state.proc = ProcessInfo::attach_process(host);
    }

    let mut game = match state.proc {
        Option::Some(g) => g,
        Option::None => {
            assert(state.session_state() == transition_spec(
                old(state).session_state(),
                true,
                false,
                true,
                true,
            ));
            return false;
        },
    };

    let process_open = host.is_open(game.emulator_process);
    if !process_open {
        state.proc = None;
        assert(state.session_state() == transition_spec(
            old(state).session_state(),
            false,
            true,
            true,
            true,
        ));
        return false;
    }

    let locate_ok: bool;
    if game.wram_base.is_none() {
        let located = game.look_for_wram(host);
        game.wram_base = located;
        locate_ok = located.is_some();
        if !locate_ok {
            state.proc = Some(game);
            assert(state.session_state() == transition_spec(
                old(state).session_state(),
                true,
                true,
                false,
                true,
            ));
            return false;
        }
    } else {
        locate_ok = true;
    }

    let validate_ok = game.keep_alive(host);
    if !validate_ok {
        game.wram_base = None;
    }
    let ready = game.wram_base.is_some();
    state.proc = Some(game);
    assert(state.session_state() == transition_spec(
        old(state).session_state(),
        true,
        true,
        locate_ok,
        validate_ok,
    ));
    ready
}

/// Whether a logical offset lies inside the PS1's valid window: the raw
/// RAM range or its KSEG-style mapped alias.
pub open spec fn ps1_valid(offset: u32) -> bool {
    offset <= 0x1FFFFF || (0x80000000 <= offset && offset <= 0x801FFFFF)
}

/// The host offset a valid logical offset translates to: an aliased
/// address drops its fixed `0x80000000` base, a raw offset passes through.
pub open spec fn host_offset_spec(offset: u32) -> u32 {
    if offset >= 0x80000000 {
        (offset - 0x80000000) as u32
    } else {
        offset
    }
}

/// The PS1 address translator: valid logical offsets map to their host
/// offset, everything else is rejected as out of range.
pub fn translate(offset: u32) -> (r: Result<u32, Error>)
    ensures
        ps1_valid(offset) ==> r == Result::<u32, Error>::Ok(host_offset_spec(offset)),
        !ps1_valid(offset) ==> r == Result::<u32, Error>::Err(Error::OutOfRange),
{
    if (offset > 0x1FFFFF && offset < 0x80000000) || offset > 0x801FFFFF {
        return Err(Error::OutOfRange);
    }
    if offset >= 0x80000000 {
        Ok(offset - 0x80000000)
    } else {
        Ok(offset)
    }
}

/// A raw offset and its KSEG-style mapped alias address the identical host
/// offset, so a read through either form returns the same bytes.
pub proof fn lemma_mirrored_offsets(offset: u32)
    requires
        offset <= 0x1FFFFF,
    ensures
        ps1_valid(offset),
        ps1_valid((offset + 0x80000000) as u32),
        host_offset_spec((offset + 0x80000000) as u32) == host_offset_spec(offset),
{
}

/// Reads a value from the emulated RAM, in the fixed byte order the
/// emulator stores it.
///
/// An offset outside the valid window is rejected whatever the session
/// state; a valid offset needs a ready session; with both, only a
/// host-level read failure is left to report.
pub fn read<H: Host>(host: &mut H, state: &State, offset: u32, width: Width) -> (r: Result<
    u32,
    Error,
>)
    ensures
        !ps1_valid(offset) ==> r == Result::<u32, Error>::Err(Error::OutOfRange),
        ps1_valid(offset) && !(state.session_state() is Ready) ==> r == Result::<u32, Error>::Err(
            Error::NotReady,
        ),
        ps1_valid(offset) && state.session_state() is Ready ==> (r is Ok || r == Result::<
            u32,
            Error,
        >::Err(Error::ReadFault)),
        r matches Ok(v) ==> v < pow256(width.spec_len()),
{
    let host_offset = match translate(offset) {
        Ok(o) => o,
        Err(e) => { return Err(e) },
    };
    let info = match &state.proc {
        Option::Some(info) => info,
        Option::None => { return Err(Error::NotReady) },
    };
    let wram = match info.wram_base {
        Option::Some(w) => w,
        Option::None => { return Err(Error::NotReady) },
    };
    let address = match try_add(wram, host_offset as u64) {
        Option::Some(a) => a,
        Option::None => { return Err(Error::ReadFault) },
    };
    let len = width.len();
    match read_value(host, info.emulator_process, address, len, Endianness::Little) {
        Option::Some(v) => {
            proof {
                lemma_pow256_small();
            }
            Ok(v as u32)
        },
        Option::None => Err(Error::ReadFault),
    }
}

} // verus!
