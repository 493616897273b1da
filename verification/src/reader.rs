//! The brightness reader: one synchronous read against a display reference.
//!
//! A read opens a handle for the reference, queries the brightness feature,
//! and closes the handle again. The native calls block on the DDC/CI bus, so
//! they are made outside the library; this module holds the decisions between
//! them as a small state machine. The caller performs the action each step
//! returns and feeds the call's outcome back as the next event.
//!
//! A read never fails outward: whichever native call goes wrong, the read
//! still yields a usable value — the default brightness — so that a monitor
//! with an unreadable brightness still gets a working control.

use crate::registry::DisplayRef;
use crate::vcp::{clamp_byte, clamp_to_byte, vcp_decode, DDCA_Non_Table_Vcp_Value};
use vstd::prelude::*;

verus! {

/// The brightness shown for a monitor whose brightness could not be read.
pub const DEFAULT_BRIGHTNESS: u8 = 50;

/// The VCP feature code for brightness.
pub const BRIGHTNESS_FEATURE_CODE: u8 = 0x10;

/// Where a brightness read stands between native calls.
#[derive(Clone, Copy, Debug, PartialEq, Eq)]
pub enum ReadPhase {
    /// The open call is out; waiting for its result.
    AwaitingOpen,
    /// The handle is open and the feature query is out.
    AwaitingQuery,
    /// The result is decided; the open handle still has to be closed.
    AwaitingClose { value: u8 },
    /// The read is over and yielded `value`. No handle remains open.
    Done { value: u8 },
}

/// The next native call the caller has to make on behalf of a read.
#[derive(Clone, Copy, Debug, PartialEq, Eq)]
pub enum ReadAction {
    /// Query the brightness feature on the open handle.
    QueryBrightness,
    /// Close the open handle.
    CloseDisplay,
    /// Nothing further: the read is complete.
    Finish,
}

/// One brightness read against a display reference.
pub struct ReadTask {
    /// The display reference being read.
    pub reference: DisplayRef,
    /// Where the read stands.
    pub phase: ReadPhase,
}

impl ReadTask {
    /// Begin a read: the first native call to make is opening `reference`.
    pub fn new(reference: DisplayRef) -> (t: ReadTask)
        ensures
            t.reference == reference,
            t.phase is AwaitingOpen,
    {
        ReadTask { reference, phase: ReadPhase::AwaitingOpen }
    }

    /// Consume the open call's outcome: its status code and whether it
    /// produced a valid handle. A failed or handleless open ends the read at
    /// once with the default brightness — no query and no close follows,
    /// since no handle was ever opened.
    pub fn on_open_result(&mut self, rc: i32, handle_valid: bool) -> (a: ReadAction)
        requires
            old(self).phase is AwaitingOpen,
        ensures
            final(self).reference == old(self).reference,
            rc == 0 && handle_valid ==> final(self).phase is AwaitingQuery
                && a is QueryBrightness,
            !(rc == 0 && handle_valid) ==> final(self).phase == (ReadPhase::Done {
                value: DEFAULT_BRIGHTNESS,
            }) && a is Finish,
    {
        if rc == 0 && handle_valid {
            self.phase = ReadPhase::AwaitingQuery;
            ReadAction::QueryBrightness
        } else {
            self.phase = ReadPhase::Done { value: DEFAULT_BRIGHTNESS };
            ReadAction::Finish
        }
    }

    /// Consume the feature query's outcome. On success the read's value is
    /// the decoded current setting, clamped into `[0, 255]` and narrowed to
    /// one byte; on failure it is the default brightness. Either way the
    /// handle is open and must be closed next.
    pub fn on_query_result(&mut self, rc: i32, value: &DDCA_Non_Table_Vcp_Value) -> (a:
        ReadAction)
        requires
            old(self).phase is AwaitingQuery,
        ensures
            final(self).reference == old(self).reference,
            a is CloseDisplay,
            rc == 0 ==> final(self).phase == (ReadPhase::AwaitingClose {
                value: clamp_byte(vcp_decode(value.sh, value.sl)),
            }),
            rc != 0 ==> final(self).phase == (ReadPhase::AwaitingClose {
                value: DEFAULT_BRIGHTNESS,
            }),
    {
        let v: u8 = if rc == 0 {
            clamp_to_byte(value.current_value())
        } else {
            DEFAULT_BRIGHTNESS
        };
        self.phase = ReadPhase::AwaitingClose { value: v };
        ReadAction::CloseDisplay
    }

    /// Consume the close call's outcome and finish the read. The close's
    /// status code does not change the value: a read is best-effort and its
    /// result was already decided.
    pub fn on_close_result(&mut self, rc: i32) -> (b: u8)
        requires
            old(self).phase is AwaitingClose,
        ensures
            final(self).reference == old(self).reference,
            b == old(self).phase->AwaitingClose_value,
            final(self).phase == (ReadPhase::Done { value: b }),
    {
        let v = match self.phase {
            ReadPhase::AwaitingClose { value } => value,
            _ => DEFAULT_BRIGHTNESS,
        };
        self.phase = ReadPhase::Done { value: v };
        v
    }
}

} // verus!
