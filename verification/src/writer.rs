//! The brightness writer: one asynchronous write against a monitor.
//!
//! A write is dispatched onto an execution context that may block, with a
//! snapshot of the registry taken at dispatch time. There it looks the
//! monitor up by index, opens a handle, issues the set-feature call, closes
//! the handle, and reports its result exactly once. The native calls are made
//! outside the library; this module holds every decision between them as a
//! state machine. The caller performs the action each step returns and feeds
//! the call's status code back as the next event.
//!
//! Within one write, open → set → close is strictly sequential, and every
//! opened handle is closed on every path — including the path where the set
//! call fails. Two dispatched writes share no state, so concurrent writes for
//! the same monitor cannot corrupt each other's task; which of them determines
//! the physical state is decided by whichever set call lands last.

use crate::registry::{DisplayRef, Monitor, Registry};
use vstd::prelude::*;

verus! {

/// Why a brightness write failed.
#[derive(Clone, Copy, Debug, PartialEq, Eq)]
pub enum WriteError {
    /// The requested monitor index is not in the registry snapshot. No native
    /// call was made for this write.
    NoSuchMonitor { index: usize },
    /// Opening the display failed with the given native status code. No set
    /// or close call followed.
    OpenFailed { rc: i32 },
    /// The set-feature call failed with the given native status code. The
    /// handle was still closed before the failure was reported.
    SetFailed { rc: i32 },
    /// The blocking execution context failed to run the write task at all;
    /// distinct from every protocol error.
    DispatchFailed,
}

/// What happened outside the library, fed back into a write task.
#[derive(Clone, Copy, Debug, PartialEq, Eq)]
pub enum WriteEvent {
    /// The task started running on the blocking execution context.
    Started,
    /// The blocking execution context failed to run the task.
    DispatchFailed,
    /// The open call returned this status code.
    OpenReturned { rc: i32 },
    /// The set-feature call returned this status code.
    SetReturned { rc: i32 },
    /// The close call returned this status code.
    CloseReturned { rc: i32 },
}

/// The next native call (or report) the caller has to make on behalf of a
/// write.
#[derive(Clone, Copy, Debug, PartialEq, Eq)]
pub enum WriteAction {
    /// Open the display with this reference.
    OpenDisplay { reference: DisplayRef },
    /// Issue the set-feature call for brightness with this raw value.
    SetFeature { value: u8 },
    /// Close the open handle.
    CloseDisplay,
    /// Deliver the completion result to the caller; no native call remains.
    Report,
}

/// Where a write stands in its `open → set → close` sequence.
#[derive(Clone, Copy, Debug, PartialEq, Eq)]
pub enum WriteState {
    /// Dispatched but not yet running.
    Requested,
    /// The monitor was found and the open call is out.
    AwaitingOpen,
    /// The handle is open and the set call is out.
    AwaitingSet,
    /// The close call is out. `failed_set_rc` carries the set call's status
    /// code when it failed; the handle is closed either way.
    AwaitingClose { failed_set_rc: Option<i32> },
    /// Terminal: the result is ready to be reported exactly once.
    Completed { result: Result<(), WriteError> },
}

/// Which event a write in state `s` can consume next. A completed write
/// consumes nothing: its result is reported and the task is over.
pub open spec fn write_accepts(s: WriteState, ev: WriteEvent) -> bool {
    match s {
        WriteState::Requested => ev is Started || ev is DispatchFailed,
        WriteState::AwaitingOpen => ev is OpenReturned,
        WriteState::AwaitingSet => ev is SetReturned,
        WriteState::AwaitingClose { .. } => ev is CloseReturned,
        WriteState::Completed { .. } => false,
    }
}

/// The transition relation of one write task for monitor `index` and target
/// `value`, against the registry snapshot taken at dispatch time: the state
/// after consuming `ev` in state `s`, and the action the caller must perform
/// next.
pub open spec fn write_step_spec(
    index: usize,
    value: u8,
    snapshot: Seq<Monitor>,
    s: WriteState,
    ev: WriteEvent,
) -> (WriteState, WriteAction)
    recommends
        write_accepts(s, ev),
{
    match (s, ev) {
        (WriteState::Requested, WriteEvent::Started) => {
            if index < snapshot.len() {
                (
                    WriteState::AwaitingOpen,
                    WriteAction::OpenDisplay { reference: snapshot[index as int].display_ref },
                )
            } else {
                (
                    WriteState::Completed { result: Err(WriteError::NoSuchMonitor { index }) },
                    WriteAction::Report,
                )
            }
        },
        (WriteState::Requested, WriteEvent::DispatchFailed) => (
            WriteState::Completed { result: Err(WriteError::DispatchFailed) },
            WriteAction::Report,
        ),
        (WriteState::AwaitingOpen, WriteEvent::OpenReturned { rc }) => {
            if rc == 0 {
                (WriteState::AwaitingSet, WriteAction::SetFeature { value })
            } else {
                (
                    WriteState::Completed { result: Err(WriteError::OpenFailed { rc }) },
                    WriteAction::Report,
                )
            }
        },
        (WriteState::AwaitingSet, WriteEvent::SetReturned { rc }) => {
            if rc == 0 {
                (WriteState::AwaitingClose { failed_set_rc: None }, WriteAction::CloseDisplay)
            } else {
                (WriteState::AwaitingClose { failed_set_rc: Some(rc) }, WriteAction::CloseDisplay)
            }
        },
        (WriteState::AwaitingClose { failed_set_rc }, WriteEvent::CloseReturned { .. }) => {
            match failed_set_rc {
                Some(set_rc) => (
                    WriteState::Completed { result: Err(WriteError::SetFailed { rc: set_rc }) },
                    WriteAction::Report,
                ),
                None => (WriteState::Completed { result: Ok(()) }, WriteAction::Report),
            }
        },
        _ => (s, WriteAction::Report),
    }
}

/// One brightness write request, as dispatched per user interaction.
pub struct WriteTask {
    /// The registry index of the monitor to write to.
    pub index: usize,
    /// The raw brightness byte to set.
    pub value: u8,
    /// The registry snapshot passed at dispatch time; lookup happens in it.
    pub snapshot: Registry,
    /// Where the write stands.
    pub state: WriteState,
}

impl WriteTask {
    /// Dispatch a write of `value` to the monitor at `index`, with a snapshot
    /// of the registry taken at dispatch time.
    pub fn new(index: usize, value: u8, snapshot: Registry) -> (t: WriteTask)
        ensures
            t.index == index,
            t.value == value,
            t.snapshot == snapshot,
            t.state is Requested,
    {
        WriteTask { index, value, snapshot, state: WriteState::Requested }
    }

    /// Consume the next event and say which call the caller must make next.
    /// The step is exactly the machine's transition relation; the task's
    /// index, value and snapshot never change.
    pub fn step(&mut self, ev: WriteEvent) -> (a: WriteAction)
        requires
            write_accepts(old(self).state, ev),
        ensures
            final(self).index == old(self).index,
            final(self).value == old(self).value,
            final(self).snapshot == old(self).snapshot,
            (final(self).state, a) == write_step_spec(
                old(self).index,
                old(self).value,
                old(self).snapshot@,
                old(self).state,
                ev,
            ),
    {
        match (self.state, ev) {
            (WriteState::Requested, WriteEvent::Started) => {
                match self.snapshot.reference_of(self.index) {
                    Some(reference) => {
                        self.state = WriteState::AwaitingOpen;
                        WriteAction::OpenDisplay { reference }
                    },
                    None => {
                        self.state = WriteState::Completed {
                            result: Err(WriteError::NoSuchMonitor { index: self.index }),
                        };
                        WriteAction::Report
                    },
                }
            },
            (WriteState::Requested, WriteEvent::DispatchFailed) => {
                self.state = WriteState::Completed { result: Err(WriteError::DispatchFailed) };
                WriteAction::Report
            },
            (WriteState::AwaitingOpen, WriteEvent::OpenReturned { rc }) => {
                if rc == 0 {
                    self.state = WriteState::AwaitingSet;
                    WriteAction::SetFeature { value: self.value }
                } else {
                    self.state = WriteState::Completed {
                        result: Err(WriteError::OpenFailed { rc }),
                    };
                    WriteAction::Report
                }
            },
            (WriteState::AwaitingSet, WriteEvent::SetReturned { rc }) => {
                if rc == 0 {
                    self.state = WriteState::AwaitingClose { failed_set_rc: None };
                } else {
                    self.state = WriteState::AwaitingClose { failed_set_rc: Some(rc) };
                }
                WriteAction::CloseDisplay
            },
            (WriteState::AwaitingClose { failed_set_rc }, WriteEvent::CloseReturned { .. }) => {
                match failed_set_rc {
                    Some(set_rc) => {
                        self.state = WriteState::Completed {
                            result: Err(WriteError::SetFailed { rc: set_rc }),
                        };
                    },
                    None => {
                        self.state = WriteState::Completed { result: Ok(()) };
                    },
                }
                WriteAction::Report
            },
            _ => WriteAction::Report,
        }
    }

    /// The completion result, once the write is over; `None` while it runs.
    pub fn result(&self) -> (r: Option<Result<(), WriteError>>)
        ensures
            self.state matches WriteState::Completed { result } ==> r == Some(result),
            !(self.state is Completed) ==> r is None,
    {
        match self.state {
            WriteState::Completed { result } => Some(result),
            _ => None,
        }
    }

    /// Whether the write has reached its terminal state.
    pub fn is_completed(&self) -> (b: bool)
        ensures
            b == (self.state is Completed),
    {
        match self.state {
            WriteState::Completed { .. } => true,
            _ => false,
        }
    }
}

/// A successful set followed by a failing close still reports overall
/// success: whatever status code the close call returns, a write whose set
/// call succeeded completes with `Ok` — the brightness change was already
/// applied to the monitor.
pub proof fn lemma_close_failure_after_set_is_success(
    index: usize,
    value: u8,
    snapshot: Seq<Monitor>,
    close_rc: i32,
)
    ensures
        write_step_spec(
            index,
            value,
            snapshot,
            WriteState::AwaitingClose { failed_set_rc: None },
            WriteEvent::CloseReturned { rc: close_rc },
        ) == (WriteState::Completed { result: Ok::<(), WriteError>(()) }, WriteAction::Report),
{
}

/// A failing open never leads to a set or close call: the write completes at
/// once with the open error, the only remaining action is to report, and the
/// completed task accepts no further event.
pub proof fn lemma_failed_open_issues_no_set_or_close(
    index: usize,
    value: u8,
    snapshot: Seq<Monitor>,
    open_rc: i32,
)
    requires
        open_rc != 0,
    ensures
        write_step_spec(
            index,
            value,
            snapshot,
            WriteState::AwaitingOpen,
            WriteEvent::OpenReturned { rc: open_rc },
        ) == (
            WriteState::Completed {
                result: Err::<(), WriteError>(WriteError::OpenFailed { rc: open_rc }),
            },
            WriteAction::Report,
        ),
        forall|ev: WriteEvent|
            !write_accepts(
                WriteState::Completed {
                    result: Err(WriteError::OpenFailed { rc: open_rc }),
                },
                ev,
            ),
{
}

/// A write for an index outside the snapshot completes at once with the
/// lookup error, before any native call: the only action is to report.
pub proof fn lemma_missing_monitor_makes_no_native_call(
    index: usize,
    value: u8,
    snapshot: Seq<Monitor>,
)
    requires
        index >= snapshot.len(),
    ensures
        write_step_spec(index, value, snapshot, WriteState::Requested, WriteEvent::Started) == (
            WriteState::Completed {
                result: Err::<(), WriteError>(WriteError::NoSuchMonitor { index }),
            },
            WriteAction::Report,
        ),
{
}

/// The state a write reaches, and the actions it hands the caller in order,
/// when its actions are performed as issued and the open, set and close calls
/// return `open_rc`, `set_rc` and `close_rc`.
pub open spec fn write_drive(
    index: usize,
    value: u8,
    snapshot: Seq<Monitor>,
    open_rc: i32,
    set_rc: i32,
    close_rc: i32,
) -> (WriteState, Seq<WriteAction>) {
    let (s1, a1) = write_step_spec(index, value, snapshot, WriteState::Requested,
        WriteEvent::Started);
    if s1 is Completed {
        (s1, seq![a1])
    } else {
        let (s2, a2) = write_step_spec(index, value, snapshot, s1, WriteEvent::OpenReturned {
            rc: open_rc,
        });
        if s2 is Completed {
            (s2, seq![a1, a2])
        } else {
            let (s3, a3) = write_step_spec(index, value, snapshot, s2, WriteEvent::SetReturned {
                rc: set_rc,
            });
            let (s4, a4) = write_step_spec(index, value, snapshot, s3, WriteEvent::CloseReturned {
                rc: close_rc,
            });
            (s4, seq![a1, a2, a3, a4])
        }
    }
}

/// Every dispatched write runs to completion: whatever the monitor index and
/// whatever status codes the three native calls return, driving the task with
/// the events its actions call for ends in a `Completed` state, and each
/// event fed along the way is one the state then accepts. Two tasks share no
/// state, so two writes dispatched for the same monitor — say with two
/// different values — each complete this way, in any interleaving of their
/// steps; only which set call lands last decides the physical brightness.
pub proof fn lemma_write_runs_to_completion(
    index: usize,
    value: u8,
    snapshot: Seq<Monitor>,
    open_rc: i32,
    set_rc: i32,
    close_rc: i32,
)
    ensures
        write_drive(index, value, snapshot, open_rc, set_rc, close_rc).0 is Completed,
        write_accepts(WriteState::Requested, WriteEvent::Started),
        ({
            let (s1, _) = write_step_spec(index, value, snapshot, WriteState::Requested,
                WriteEvent::Started);
            !(s1 is Completed) ==> write_accepts(s1, WriteEvent::OpenReturned { rc: open_rc })
        }),
{
}

/// The exact calls one write makes, in order. A missing monitor makes no
/// native call at all; a failed open is followed by no set and no close; a
/// successful open is followed by exactly one set and then exactly one close,
/// whatever the set and close calls return — so every opened handle is closed
/// exactly once, on the success path and on the set-failure path alike.
pub proof fn lemma_write_call_sequence(
    index: usize,
    value: u8,
    snapshot: Seq<Monitor>,
    open_rc: i32,
    set_rc: i32,
    close_rc: i32,
)
    ensures
        index >= snapshot.len() ==> write_drive(index, value, snapshot, open_rc, set_rc, close_rc).1
            =~= seq![WriteAction::Report],
        index < snapshot.len() && open_rc != 0 ==> write_drive(
            index,
            value,
            snapshot,
            open_rc,
            set_rc,
            close_rc,
        ).1 =~= seq![
            WriteAction::OpenDisplay { reference: snapshot[index as int].display_ref },
            WriteAction::Report,
        ],
        index < snapshot.len() && open_rc == 0 ==> write_drive(
            index,
            value,
            snapshot,
            open_rc,
            set_rc,
            close_rc,
        ).1 =~= seq![
            WriteAction::OpenDisplay { reference: snapshot[index as int].display_ref },
            WriteAction::SetFeature { value },
            WriteAction::CloseDisplay,
            WriteAction::Report,
        ],
{
}

/// A write whose dispatch itself fails completes at once, with the dispatch
/// failure kept distinct from every protocol error.
pub proof fn lemma_dispatch_failure_completes(index: usize, value: u8, snapshot: Seq<Monitor>)
    ensures
        write_step_spec(index, value, snapshot, WriteState::Requested, WriteEvent::DispatchFailed)
            == (
            WriteState::Completed { result: Err::<(), WriteError>(WriteError::DispatchFailed) },
            WriteAction::Report,
        ),
{
}

} // verus!
