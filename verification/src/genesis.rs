//! Support for emulators of the Genesis family: attaching to a known
//! emulator process, locating the emulated working RAM, and serving
//! console-address-space reads.
//!
//! The valid logical window is the 64 KiB mirror `[0, 0xFFFF]` together
//! with the upper bank `(0xFF0000, 0xFFFFFF]`; the hardware gap between
//! them is rejected. Single-byte reads flip the low address bit to
//! compensate for the 16-bit-bus byte order; wider reads are decoded in
//! the byte order the locator established for the emulator build.

use vstd::prelude::*;
use crate::endian::{lemma_pow256_small, pow256};
use crate::host::Host;
use crate::session::{transition_spec, SessionState};
use crate::shared::{read_value, try_add};
use crate::{Endianness, Error, Width};

pub mod blastem;
pub mod fusion;
pub mod gens;
pub mod retroarch;
pub mod segaclassics;

verus! {

/// The Genesis emulators this family recognises.
#[derive(Clone, Copy, Debug, PartialEq, Eq, Structural)]
pub enum Emulator {
    Retroarch,
    SegaClassics,
    Fusion,
    Gens,
    BlastEm,
}

/// An attached Genesis emulator process together with the resolution state
/// the locators maintain: the cached RAM base, the byte order of the build,
/// and the revalidation anchor some locators re-check each tick.
#[derive(Clone, Copy, Debug)]
pub struct ProcessInfo {
    emulator_type: Emulator,
    emulator_process: u64,
    wram_base: Option<u64>,
    endianness: Endianness,
    anchor: u64,
}

impl ProcessInfo {
    /// Which emulator the session is attached to.
    pub closed spec fn emulator(&self) -> Emulator {
        self.emulator_type
    }

    /// The host handle of the attached process.
    pub closed spec fn process(&self) -> u64 {
        self.emulator_process
    }

    /// The cached RAM base, when one is resolved.
    pub closed spec fn wram(&self) -> Option<u64> {
        self.wram_base
    }

    /// The byte order the locator established.
    pub closed spec fn endian(&self) -> Endianness {
        self.endianness
    }

    /// The address revalidation re-checks each tick.
    pub closed spec fn anchor(&self) -> u64 {
        self.anchor
    }

    /// A freshly attached session: no RAM pointer is resolved yet, and the
    /// byte order is taken as little-endian until a locator states
    /// otherwise.
    fn fresh(emulator_type: Emulator, process: u64) -> (r: ProcessInfo)
        ensures
            r.emulator() == emulator_type,
            r.process() == process,
            r.wram() is None,
            r.endian() == Endianness::Little,
            r.anchor() == 0,
    {
        ProcessInfo {
            emulator_type,
            emulator_process: process,
            wram_base: None,
            endianness: Endianness::Little,
            anchor: 0,
        }
    }

    /// Attaches to the first running process whose name matches a known
    /// emulator, in priority order.
    pub fn attach_process<H: Host>(host: &mut H) -> (r: Option<ProcessInfo>)
        ensures
            r matches Some(info) ==> info.wram() is None,
    {
        if let Some(process) = host.attach("retroarch.exe") {
            return Some(ProcessInfo::fresh(Emulator::Retroarch, process));
        }
        if let Some(process) = host.attach("SEGAGameRoom.exe") {
            return Some(ProcessInfo::fresh(Emulator::SegaClassics, process));
        }
        if let Some(process) = host.attach("SEGAGenesisClassics.exe") {
            return Some(ProcessInfo::fresh(Emulator::SegaClassics, process));
        }
        if let Some(process) = host.attach("Fusion.exe") {
            return Some(ProcessInfo::fresh(Emulator::Fusion, process));
        }
        if let Some(process) = host.attach("gens.exe") {
            return Some(ProcessInfo::fresh(Emulator::Gens, process));
        }
        if let Some(process) = host.attach("blastem.exe") {
            return Some(ProcessInfo::fresh(Emulator::BlastEm, process));
        }
        None
    }

    /// Runs the attached emulator's locator. A failed locate commits
    /// nothing; a successful one returns the RAM base for the caller to
    /// cache, and never touches the cached pointer itself.
    pub fn look_for_wram<H: Host>(&mut self, host: &mut H) -> (r: Option<u64>)
        ensures
            r is None ==> *final(self) == *old(self),
            final(self).wram() == old(self).wram(),
            final(self).emulator() == old(self).emulator(),
            final(self).process() == old(self).process(),
    {
        match self.emulator_type {
            Emulator::Retroarch => retroarch::retroarch(host, self),
            Emulator::SegaClassics => segaclassics::segaclassics(host, self),
            Emulator::Fusion => fusion::fusion(host, self),
            Emulator::Gens => gens::gens(host, self),
            Emulator::BlastEm => blastem::blastem(host, self),
        }
    }

    /// Runs the attached emulator's cheap revalidation. Revalidation never
    /// moves the anchor or the session identity; a locator that re-derefs
    /// its anchor refreshes the cached base on success, the rest leave the
    /// session untouched.
    pub fn keep_alive<H: Host>(&mut self, host: &mut H) -> (r: bool)
        ensures
            final(self).emulator() == old(self).emulator(),
            final(self).process() == old(self).process(),
            final(self).endian() == old(self).endian(),
            final(self).anchor() == old(self).anchor(),
            !r ==> final(self).wram() == old(self).wram(),
            r ==> (final(self).wram() == old(self).wram() || final(self).wram() is Some),
    {
        match self.emulator_type {
            Emulator::Retroarch => retroarch::keep_alive(host, self),
            Emulator::SegaClassics => segaclassics::keep_alive(host, self),
            Emulator::Fusion => fusion::keep_alive(host, self),
            Emulator::Gens => gens::keep_alive(),
            Emulator::BlastEm => blastem::keep_alive(),
        }
    }
}

/// One attachment session for the Genesis family. Created empty; driven by
/// [`update`]; reads are served only while it reports ready.
pub struct State {
    proc: Option<ProcessInfo>,
}

impl State {
    /// The externally meaningful state of the session.
    pub closed spec fn session_state(&self) -> SessionState {
        match self.proc {
            Option::None => SessionState::NoProcess,
            Option::Some(info) => if info.wram() is Some {
                SessionState::Ready
            } else {
                SessionState::Attached
            },
        }
    }

    /// The cached RAM base, when the session is ready.
    pub closed spec fn resolved_base(&self) -> Option<u64> {
        match self.proc {
            Option::None => Option::None,
            Option::Some(info) => info.wram(),
        }
    }

    /// The attached build's byte order, once a process is attached.
    pub closed spec fn attached_endianness(&self) -> Option<Endianness> {
        match self.proc {
            Option::None => Option::None,
            Option::Some(info) => Option::Some(info.endian()),
        }
    }

    /// A fresh session: not attached to anything.
    pub fn new() -> (s: State)
        ensures
            s.session_state() is NoProcess,
    {
        State { proc: None }
    }

    /// Whether reads can currently be served.
    pub fn is_ready(&self) -> (r: bool)
        ensures
            r == (self.session_state() is Ready),
    {
        match &self.proc {
            Option::Some(info) => info.wram_base.is_some(),
            Option::None => false,
        }
    }

    /// The cached RAM base; present exactly while the session is ready.
    pub fn wram_base(&self) -> (r: Option<u64>)
        ensures
            r == self.resolved_base(),
            r is Some <==> self.session_state() is Ready,
    {
        match &self.proc {
            Option::Some(info) => info.wram_base,
            Option::None => None,
        }
    }

    /// The byte order of the attached build, once a process is attached.
    pub fn endianness(&self) -> (r: Option<Endianness>)
        ensures
            r == self.attached_endianness(),
            r is Some <==> !(self.session_state() is NoProcess),
    {
        match &self.proc {
            Option::Some(info) => Some(info.endianness),
            Option::None => None,
        }
    }
}

/// Advances the session one tick: attaches, locates and revalidates as the
/// attachment machine prescribes, and reports whether reads can be served.
/// The new session state is always one the machine reaches from the old by
/// some tick outcome.
pub fn update<H: Host>(host: &mut H, state: &mut State) -> (r: bool)
    ensures
        r == (final(state).session_state() is Ready),
        exists|process_open: bool, attach_ok: bool, locate_ok: bool, validate_ok: bool|
            final(state).session_state() == transition_spec(
                old(state).session_state(),
                process_open,
                attach_ok,
                locate_ok,
                validate_ok,
            ),
{
    if state.proc.is_none() {
        state.proc = ProcessInfo::attach_process(host);
    }

    let mut game = match state.proc {
        Option::Some(g) => g,
        Option::None => {
            assert(state.session_state() == transition_spec(
                old(state).session_state(),
                true,
                false,
                true,
                true,
            ));
            return false;
        },
    };

    let process_open = host.is_open(game.emulator_process);
    if !process_open {
        state.proc = None;
        assert(state.session_state() == transition_spec(
            old(state).session_state(),
            false,
            true,
            true,
            true,
        ));
        return false;
    }

    let locate_ok: bool;
    if game.wram_base.is_none() {
        let located = game.look_for_wram(host);
        game.wram_base = located;
        locate_ok = located.is_some();
        if !locate_ok {
            state.proc = Some(game);
            assert(state.session_state() == transition_spec(
                old(state).session_state(),
                true,
                true,
                false,
                true,
            ));
            return false;
        }
    } else {
        locate_ok = true;
    }

    let validate_ok = game.keep_alive(host);
    if !validate_ok {
        game.wram_base = None;
    }
    let ready = game.wram_base.is_some();
    state.proc = Some(game);
    assert(state.session_state() == transition_spec(
        old(state).session_state(),
        true,
        true,
        locate_ok,
        validate_ok,
    ));
    ready
}

/// Whether a logical offset lies inside the Genesis family's valid window:
/// the 64 KiB mirror or the upper bank, with the hardware gap between them
/// rejected.
pub open spec fn genesis_valid(offset: u32) -> bool {
    offset <= 0xFFFF || (0xFF0000 < offset && offset <= 0xFFFFFF)
}

/// The host offset a valid logical offset translates to: single-byte reads
/// flip the low address bit (even <-> odd) to compensate for the
/// 16-bit-bus byte order; wider reads translate unchanged.
pub open spec fn host_offset_spec(offset: u32, width: Width) -> u32 {
    if width is W8 {
        if offset % 2 == 0 {
            (offset + 1) as u32
        } else {
            (offset - 1) as u32
        }
    } else {
        offset
    }
}

/// Single-byte translation pairs each even offset with the odd one above
/// it: flipping the low address bit twice gives back the offset started
/// from, so offsets 0 and 1 target each other's host offset, 2 and 3 each
/// other's, and so on.
pub proof fn lemma_byte_flip_pairs(offset: u32)
    ensures
        host_offset_spec(host_offset_spec(offset, Width::W8), Width::W8) == offset,
{
}

/// The Genesis address translator: valid logical offsets map to their host
/// offset, everything else is rejected as out of range.
pub fn translate(offset: u32, width: Width) -> (r: Result<u32, Error>)
    ensures
        genesis_valid(offset) ==> r == Result::<u32, Error>::Ok(host_offset_spec(offset, width)),
        !genesis_valid(offset) ==> r == Result::<u32, Error>::Err(Error::OutOfRange),
{
    if (offset > 0xFFFF && offset <= 0xFF0000) || offset > 0xFFFFFF {
        return Err(Error::OutOfRange);
    }
    match width {
        Width::W8 => {
            if offset % 2 == 0 {
                Ok(offset + 1)
            } else {
                Ok(offset - 1)
            }
        },
        _ => Ok(offset),
    }
}

/// Reads a value from the emulated RAM, decoding it in the byte order the
/// locator established for the emulator build.
///
/// An offset outside the valid window is rejected whatever the session
/// state; a valid offset needs a ready session; with both, only a
/// host-level read failure is left to report.
pub fn read<H: Host>(host: &mut H, state: &State, offset: u32, width: Width) -> (r: Result<
    u32,
    Error,
>)
    ensures
        !genesis_valid(offset) ==> r == Result::<u32, Error>::Err(Error::OutOfRange),
        genesis_valid(offset) && !(state.session_state() is Ready) ==> r == Result::<
            u32,
            Error,
        >::Err(Error::NotReady),
        genesis_valid(offset) && state.session_state() is Ready ==> (r is Ok || r == Result::<
            u32,
            Error,
        >::Err(Error::ReadFault)),
        r matches Ok(v) ==> v < pow256(width.spec_len()),
{
    let host_offset = match translate(offset, width) {
        Ok(o) => o,
        Err(e) => { return Err(e) },
    };
    let info = match &state.proc {
        Option::Some(info) => info,
        Option::None => { return Err(Error::NotReady) },
    };
    let wram = match info.wram_base {
        Option::Some(w) => w,
        Option::None => { return Err(Error::NotReady) },
    };
    read_at(host, info.emulator_process, wram, host_offset, width, info.endianness)
}

/// Reads raw data from the emulated RAM ignoring the build's byte order:
/// no address-bit flip and no byte-order fixup, for callers that accept
/// the host's native ordering. Range and readiness checks are those of
/// [`read`].
pub fn read_ignoring_endianness<H: Host>(
    host: &mut H,
    state: &State,
    offset: u32,
    width: Width,
) -> (r: Result<u32, Error>)
    ensures
        !genesis_valid(offset) ==> r == Result::<u32, Error>::Err(Error::OutOfRange),
        genesis_valid(offset) && !(state.session_state() is Ready) ==> r == Result::<
            u32,
            Error,
        >::Err(Error::NotReady),
        genesis_valid(offset) && state.session_state() is Ready ==> (r is Ok || r == Result::<
            u32,
            Error,
        >::Err(Error::ReadFault)),
        r matches Ok(v) ==> v < pow256(width.spec_len()),
{
    if (offset > 0xFFFF && offset <= 0xFF0000) || offset > 0xFFFFFF {
        return Err(Error::OutOfRange);
    }
    let info = match &state.proc {
        Option::Some(info) => info,
        Option::None => { return Err(Error::NotReady) },
    };
    let wram = match info.wram_base {
        Option::Some(w) => w,
        Option::None => { return Err(Error::NotReady) },
    };
    read_at(host, info.emulator_process, wram, offset, width, Endianness::Little)
}

/// The shared tail of the read paths: the host read at `base + offset` and
/// the verified decode, with a host failure reported as a read fault.
fn read_at<H: Host>(
    host: &mut H,
    process: u64,
    base: u64,
    offset: u32,
    width: Width,
    endian: Endianness,
) -> (r: Result<u32, Error>)
    ensures
        r is Ok || r == Result::<u32, Error>::Err(Error::ReadFault),
        r matches Ok(v) ==> v < pow256(width.spec_len()),
{
    let address = match try_add(base, offset as u64) {
        Option::Some(a) => a,
        Option::None => { return Err(Error::ReadFault) },
    };
    let len = width.len();
    match read_value(host, process, address, len, endian) {
        Option::Some(v) => {
            proof {
                lemma_pow256_small();
            }
            Ok(v as u32)
        },
        Option::None => Err(Error::ReadFault),
    }
}

} // verus!
