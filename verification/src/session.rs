//! The attachment state machine, abstracted from any one console family.
//!
//! A session is in one of three states: no process, attached without a
//! resolved pointer, or ready. Each tick the host's answers — whether the
//! process is open, whether an attach, a locate or a revalidation succeeded
//! — drive at most one pass through the machine. The per-console `update`
//! functions realise exactly this machine over their own session data.

use vstd::prelude::*;

verus! {

/// The externally meaningful state of an attachment session.
#[derive(Clone, Copy, Debug, PartialEq, Eq, Structural)]
pub enum SessionState {
    /// No emulator process is attached.
    NoProcess,
    /// A process is attached but no RAM pointer is resolved.
    Attached,
    /// A RAM pointer is resolved; reads may be served.
    Ready,
}

/// One tick of the attachment machine.
///
/// - With no process, a tick first attempts an attach; failure stays at
///   `NoProcess`.
/// - Whatever the state, a process that reports closed resets the session
///   to `NoProcess`.
/// - Attached without a pointer, a tick runs `locate`; failure stays at
///   `Attached`, success continues with the new pointer.
/// - Holding a pointer, a tick revalidates it; failure drops the pointer
///   and falls back to `Attached`, success is `Ready`.
pub open spec fn transition_spec(
    state: SessionState,
    process_open: bool,
    attach_ok: bool,
    locate_ok: bool,
    validate_ok: bool,
) -> SessionState {
    let attached = !(state is NoProcess) || attach_ok;
    if !attached {
        SessionState::NoProcess
    } else if !process_open {
        SessionState::NoProcess
    } else {
        let resolved = state is Ready || locate_ok;
        if !resolved {
            SessionState::Attached
        } else if validate_ok {
            SessionState::Ready
        } else {
            SessionState::Attached
        }
    }
}

/// Executable form of one tick of the attachment machine, for drivers that
/// script or observe the tick outcomes directly.
pub fn session_transition(
    state: SessionState,
    process_open: bool,
    attach_ok: bool,
    locate_ok: bool,
    validate_ok: bool,
) -> (r: SessionState)
    ensures
        r == transition_spec(state, process_open, attach_ok, locate_ok, validate_ok),
{
    let attached = match state {
        SessionState::NoProcess => attach_ok,
        _ => true,
    };
    if !attached {
        SessionState::NoProcess
    } else if !process_open {
        SessionState::NoProcess
    } else {
        let resolved = match state {
            SessionState::Ready => true,
            _ => locate_ok,
        };
        if !resolved {
            SessionState::Attached
        } else if validate_ok {
            SessionState::Ready
        } else {
            SessionState::Attached
        }
    }
}

/// A ready session whose process stays open and whose revalidation succeeds
/// is left exactly where it was: successful revalidation never moves the
/// machine, however often it runs.
pub proof fn lemma_revalidation_idempotent(attach_ok: bool, locate_ok: bool)
    ensures
        transition_spec(SessionState::Ready, true, attach_ok, locate_ok, true)
            == SessionState::Ready,
{
}

/// The machine never invents readiness: a tick ends `Ready` only when the
/// process is open, revalidation succeeded, and a pointer was either already
/// held or freshly located this tick.
pub proof fn lemma_ready_needs_evidence(
    state: SessionState,
    process_open: bool,
    attach_ok: bool,
    locate_ok: bool,
    validate_ok: bool,
)
    ensures
        transition_spec(state, process_open, attach_ok, locate_ok, validate_ok)
            is Ready ==> process_open && validate_ok && (state is Ready || locate_ok),
{
}

/// A closed process resets the machine, whatever else the tick reported.
pub proof fn lemma_closed_resets(
    state: SessionState,
    attach_ok: bool,
    locate_ok: bool,
    validate_ok: bool,
)
    ensures
        !(state is NoProcess) ==> transition_spec(state, false, attach_ok, locate_ok, validate_ok)
            is NoProcess,
{
}

/// Every degradation is self-healing: whatever the state, one tick on
/// which the process is open and attach, locate and revalidation all
/// succeed ends ready.
pub proof fn lemma_good_tick_recovers(state: SessionState)
    ensures
        transition_spec(state, true, true, true, true) == SessionState::Ready,
{
}

/// The polling cadence a session asks of its host scheduler.
#[derive(Clone, Copy, Debug, PartialEq, Eq, Structural)]
pub enum Cadence {
    /// Coarse polling while no pointer is resolved, to avoid repeated
    /// full-process scans.
    Search,
    /// Fine polling once reads can be served.
    Active,
}

/// The advisory scheduling hint for a session of the given readiness.
pub fn cadence_hint(ready: bool) -> (c: Cadence)
    ensures
        c == if ready {
            Cadence::Active
        } else {
            Cadence::Search
        },
{
    if ready {
        Cadence::Active
    } else {
        Cadence::Search
    }
}

} // verus!
