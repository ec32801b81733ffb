//! The process handle registry: the one exclusive slot that holds at most one
//! live worker handle, with the transition functions behind the start, stop
//! and query commands.
//!
//! The registry decides; the unverified shell acts. A handle is an opaque
//! token chosen by the shell for the process it spawned. One `start` is the
//! protocol `begin_start` (surrender the old handle, to be killed now),
//! spawn, `finish_start` (record the outcome, yield the event). One `stop` is
//! `request_stop` (take the handle or report the no-process error), kill,
//! `finish_stop` (yield the result and the event). The shell must run each
//! protocol under one acquisition of its exclusive region, so a superseded
//! worker is killed before the new handle becomes visible to any other call.

use vstd::prelude::*;

verus! {

/// A lifecycle transition announced to observers. Fire-and-forget: carrying
/// no payload, and delivery is the shell's best-effort business.
#[derive(Clone, Copy, Debug, PartialEq, Eq, Structural)]
pub enum LifecycleEvent {
    Started,
    Stopped,
}

/// The view of a `Result` whose error is an owned message.
pub open spec fn result_view<T>(r: Result<T, String>) -> Result<T, Seq<char>> {
    match r {
        Ok(t) => Ok(t),
        Err(e) => Err(e@),
    }
}

/// The view of an optional owned message.
pub open spec fn opt_msg_view(o: Option<String>) -> Option<Seq<char>> {
    match o {
        Some(s) => Some(s@),
        None => None,
    }
}

/// The error reported by a stop with no process to stop.
pub open spec fn no_process_message() -> Seq<char> {
    "No process running"@
}

/// The error reported when the spawn failed, wrapping the OS's own words.
pub open spec fn spawn_failure_message(err: Seq<char>) -> Seq<char> {
    "Failed to start lilt: "@ + err
}

/// The error reported when the kill failed, wrapping the OS's own words.
pub open spec fn kill_failure_message(err: Seq<char>) -> Seq<char> {
    "Failed to kill process: "@ + err
}

/// `is_running` is a presence check on the slot, nothing more: a handle is
/// "running" until it is stopped or superseded, whether or not the process
/// has exited on its own.
pub open spec fn is_running_spec(slot: Option<u64>) -> bool {
    slot is Some
}

/// The first half of a start: the slot is emptied, and whatever handle was
/// live is surrendered to the caller for killing.
pub open spec fn begin_start_spec(slot: Option<u64>) -> (Option<u64>, Option<u64>) {
    (None, slot)
}

/// The second half of a start, on the spawn's outcome: a spawned handle is
/// stored and announced `Started`; a spawn failure leaves the slot empty,
/// announces nothing, and reports the wrapped OS error.
pub open spec fn finish_start_spec(slot: Option<u64>, spawn: Result<u64, Seq<char>>) -> (
    Option<u64>,
    Result<(), Seq<char>>,
    Option<LifecycleEvent>,
) {
    match spawn {
        Ok(h) => (Some(h), Ok(()), Some(LifecycleEvent::Started)),
        Err(e) => (slot, Err(spawn_failure_message(e)), None),
    }
}

/// The first half of a stop: the slot is emptied either way; the live handle
/// is yielded for killing, and with none present the no-process error comes
/// back instead.
pub open spec fn request_stop_spec(slot: Option<u64>) -> (Option<u64>, Result<u64, Seq<char>>) {
    match slot {
        Some(h) => (None, Ok(h)),
        None => (None, Err(no_process_message())),
    }
}

/// The second half of a stop, on the kill's outcome: success is announced
/// `Stopped`; a kill failure is reported, with no event — the handle stays
/// discarded either way, as the process is assumed unrecoverable.
pub open spec fn finish_stop_spec(kill_error: Option<Seq<char>>) -> (
    Result<(), Seq<char>>,
    Option<LifecycleEvent>,
) {
    match kill_error {
        None => (Ok(()), Some(LifecycleEvent::Stopped)),
        Some(e) => (Err(kill_failure_message(e)), None),
    }
}

/// The reaping transition. The presence check alone never notices a worker
/// exiting on its own, so a handle could stay "running" forever; the shell
/// closes that gap by probing the child with a non-blocking exit check on
/// each query and reporting the outcome here. A detected exit empties the
/// slot and is announced `Stopped`; otherwise nothing changes.
pub open spec fn note_exit_spec(slot: Option<u64>, exited: bool) -> (
    Option<u64>,
    Option<LifecycleEvent>,
) {
    if exited && slot is Some {
        (None, Some(LifecycleEvent::Stopped))
    } else {
        (slot, None)
    }
}

/// The name each event carries on the wire to observers.
pub open spec fn wire_name_spec(event: LifecycleEvent) -> Seq<char> {
    match event {
        LifecycleEvent::Started => "transcoding-started"@,
        LifecycleEvent::Stopped => "transcoding-stopped"@,
    }
}

/// The wire name of `event`, exactly as [`wire_name_spec`] gives it.
pub fn wire_name(event: LifecycleEvent) -> (r: String)
    ensures
        r@ == wire_name_spec(event),
{
    match event {
        LifecycleEvent::Started => String::from_str("transcoding-started"),
        LifecycleEvent::Stopped => String::from_str("transcoding-stopped"),
    }
}

/// The handle slot. At most one worker handle exists system-wide, and this
/// slot owns it exclusively; the shell guards the whole value with its
/// mutual-exclusion region.
pub struct Registry {
    slot: Option<u64>,
}

impl Registry {
    /// The handle currently owned, if any.
    pub closed spec fn handle(self) -> Option<u64> {
        self.slot
    }

    /// A fresh registry owns no handle: nothing is running at startup.
    pub fn new() -> (r: Registry)
        ensures
            r.handle() is None,
    {
        Registry { slot: None }
    }

    /// The `is-transcoding-running` decision: a presence check on the slot.
    pub fn is_running(&self) -> (r: bool)
        ensures
            r == is_running_spec(self.handle()),
    {
        match self.slot {
            Some(_) => true,
            None => false,
        }
    }

    /// Opens a start: empties the slot and returns the superseded handle,
    /// which the caller must kill before spawning the new worker.
    pub fn begin_start(&mut self) -> (victim: Option<u64>)
        ensures
            (final(self).handle(), victim) == begin_start_spec(old(self).handle()),
    {
        let victim = self.slot;
        self.slot = None;
        victim
    }

    /// Closes a start with the spawn's outcome. The slot must still be empty
    /// — only the protocol that killed the old worker may store a new handle.
    /// On success the handle is stored first and the `Started` event returned
    /// with the success; on failure the slot stays empty, no event comes, and
    /// the result wraps the OS error verbatim.
    pub fn finish_start(&mut self, spawn_result: Result<u64, String>) -> (r: (
        Result<(), String>,
        Option<LifecycleEvent>,
    ))
        requires
            old(self).handle() is None,
        ensures
            ({
                let (slot2, res, ev) = finish_start_spec(
                    old(self).handle(),
                    result_view(spawn_result),
                );
                &&& final(self).handle() == slot2
                &&& result_view(r.0) == res
                &&& r.1 == ev
            }),
    {
        match spawn_result {
            Ok(h) => {
                self.slot = Some(h);
                (Ok(()), Some(LifecycleEvent::Started))
            },
            Err(e) => {
                let msg = String::from_str("Failed to start lilt: ").concat(e.as_str());
                (Err(msg), None)
            },
        }
    }

    /// Opens a stop: with a handle present it is taken out for killing; with
    /// none, the no-process error is reported — stopping is not
    /// idempotent-silent. The slot is empty afterwards in either case.
    pub fn request_stop(&mut self) -> (r: Result<u64, String>)
        ensures
            ({
                let (slot2, res) = request_stop_spec(old(self).handle());
                &&& final(self).handle() == slot2
                &&& result_view(r) == res
            }),
    {
        match self.slot {
            Some(h) => {
                self.slot = None;
                Ok(h)
            },
            None => Err(String::from_str("No process running")),
        }
    }

    /// Records the outcome of the shell's non-blocking exit probe, as
    /// [`note_exit_spec`] describes: a worker found exited leaves the slot,
    /// and the `Stopped` announcement comes only with that removal.
    pub fn note_exit(&mut self, exited: bool) -> (ev: Option<LifecycleEvent>)
        ensures
            ({
                let (slot2, ev2) = note_exit_spec(old(self).handle(), exited);
                &&& final(self).handle() == slot2
                &&& ev == ev2
            }),
    {
        if exited {
            match self.slot {
                Some(_) => {
                    self.slot = None;
                    Some(LifecycleEvent::Stopped)
                },
                None => None,
            }
        } else {
            None
        }
    }
}

/// Closes a stop with the kill's outcome. The handle was already removed by
/// [`Registry::request_stop`], so the `Stopped` event can only follow the
/// removal; a kill failure is reported with no event.
pub fn finish_stop(kill_error: Option<String>) -> (r: (
    Result<(), String>,
    Option<LifecycleEvent>,
))
    ensures
        ({
            let (res, ev) = finish_stop_spec(opt_msg_view(kill_error));
            &&& result_view(r.0) == res
            &&& r.1 == ev
        }),
{
    match kill_error {
        None => (Ok(()), Some(LifecycleEvent::Stopped)),
        Some(e) => {
            let msg = String::from_str("Failed to kill process: ").concat(e.as_str());
            (Err(msg), None)
        },
    }
}

/// Law: the single-instance invariant. A start taken from any state
/// surrenders exactly the handle that was live — to be killed before the new
/// spawn — and holds the slot empty until the spawn's outcome is known;
/// afterwards at most the newly spawned handle is present. So after each
/// completed start at most one worker is owned, and a second start in a row
/// kills the first worker before the second is spawned.
pub proof fn lemma_single_instance(slot: Option<u64>, spawn: Result<u64, Seq<char>>)
    ensures
        ({
            let (mid, victim) = begin_start_spec(slot);
            let (fin, res, ev) = finish_start_spec(mid, spawn);
            &&& victim == slot
            &&& mid is None
            &&& (spawn is Ok ==> fin == Some(spawn->Ok_0))
            &&& (spawn is Err ==> fin is None)
        }),
{
}

/// Law: the query is idempotent. `is_running` observes the slot and nothing
/// else, so any two queries with no intervening transition return the same
/// value.
pub proof fn lemma_query_idempotent(slot: Option<u64>, first: bool, second: bool)
    requires
        first == is_running_spec(slot),
        second == is_running_spec(slot),
    ensures
        first == second,
{
}

/// Law: stop without start fails. A stop taken with no handle present
/// reports exactly the no-process error, leaves the slot empty, and yields no
/// handle to kill — so the stop protocol never reaches the step that emits a
/// `Stopped` event.
pub proof fn lemma_stop_without_start()
    ensures
        ({
            let (slot2, res) = request_stop_spec(None);
            &&& slot2 is None
            &&& res is Err
            &&& res->Err_0 == no_process_message()
        }),
{
}

/// Law: event ordering. `Started` comes exactly with a successful spawn, and
/// only together with the new handle already stored; `Stopped` comes exactly
/// with a successful kill, which the protocol reaches only after the handle
/// left the slot (`request_stop` empties it from every state). No event ever
/// precedes the slot change it reports, and no failed operation emits one.
pub proof fn lemma_event_ordering(
    slot: Option<u64>,
    spawn: Result<u64, Seq<char>>,
    kill_error: Option<Seq<char>>,
)
    ensures
        ({
            let (fin, res, ev) = finish_start_spec(None, spawn);
            &&& (ev == Some(LifecycleEvent::Started) <==> spawn is Ok)
            &&& (spawn is Ok ==> fin == Some(spawn->Ok_0) && res is Ok)
            &&& (spawn is Err ==> ev is None && fin is None && res is Err)
        }),
        request_stop_spec(slot).0 is None,
        ({
            let (res, ev) = finish_stop_spec(kill_error);
            &&& (ev == Some(LifecycleEvent::Stopped) <==> kill_error is None)
            &&& (kill_error is None ==> res is Ok)
            &&& (kill_error is Some ==> ev is None && res is Err)
        }),
{
}

} // verus!
