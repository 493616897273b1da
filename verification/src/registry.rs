//! The monitor registry and display enumeration.
//!
//! Enumeration runs once at startup: the native library hands back a list of
//! opaque display references terminated by a null-equivalent sentinel, and a
//! `Monitor` entry is built for each reference, carrying the brightness read
//! at that moment. After that the registry's length and reference set never
//! change; only the per-entry brightness varies, and only in response to a
//! user change request.

use vstd::pervasive::VecAdditionalExecFns;
use vstd::prelude::*;

verus! {

/// An opaque identifier for a discovered physical display, issued by the
/// native library at enumeration time. It is never dereferenced or computed
/// with: it is only ever handed back into native calls. The raw value `0` is
/// the sentinel that terminates the native reference list and never
/// identifies a display.
#[derive(Clone, Copy, Debug, PartialEq, Eq, Structural)]
pub struct DisplayRef {
    /// The native reference, carried through as a plain value.
    pub id: u64,
}

/// One discovered monitor: its native display reference and the brightness
/// the controller currently shows for it.
#[derive(Clone, Copy, Debug)]
pub struct Monitor {
    /// The native reference under which this monitor was discovered.
    pub display_ref: DisplayRef,
    /// The brightness on display for this monitor, as a raw byte.
    pub brightness: u8,
}

/// `refs` is exactly the prefix of `raw` that precedes the first `0`
/// sentinel (or all of `raw`, when no sentinel occurs), each element wrapped
/// as a display reference.
pub open spec fn is_sentinel_prefix(raw: Seq<u64>, refs: Seq<DisplayRef>) -> bool {
    &&& refs.len() <= raw.len()
    &&& forall|j: int| 0 <= j < refs.len() ==> refs[j].id == raw[j] && raw[j] != 0
    &&& refs.len() == raw.len() || raw[refs.len() as int] == 0
}

/// The display references discovered by one enumeration call.
///
/// `enum_rc` is the enumeration call's status code and `raw` the reference
/// list it produced, if any, read value by value up to and including whatever
/// the caller saw. A failed call, a missing list, or a list that opens with
/// the sentinel all yield no references — enumeration failure is non-fatal
/// and the caller starts with an empty registry instead of aborting.
pub fn collect_display_refs(enum_rc: i32, raw: Option<Vec<u64>>) -> (refs: Vec<DisplayRef>)
    ensures
        enum_rc != 0 || raw is None ==> refs@ == Seq::<DisplayRef>::empty(),
        enum_rc == 0 ==> (raw matches Some(v) ==> is_sentinel_prefix(v@, refs@)),
{
    let mut refs: Vec<DisplayRef> = Vec::new();
    let list = match raw {
        Some(v) => v,
        None => {
            return refs;
        },
    };
    if enum_rc != 0 {
        return refs;
    }
    let mut i: usize = 0;
    while i < list.len() && list[i] != 0
        invariant
            i <= list@.len(),
            refs@.len() == i,
            forall|j: int| 0 <= j < i ==> refs@[j].id == list@[j] && list@[j] != 0,
        decreases list@.len() - i,
    {
        refs.push(DisplayRef { id: list[i] });
        i = i + 1;
    }
    refs
}

/// The in-memory list of discovered monitors.
#[derive(Clone)]
pub struct Registry {
    monitors: Vec<Monitor>,
}

impl View for Registry {
    type V = Seq<Monitor>;

    closed spec fn view(&self) -> Seq<Monitor> {
        self.monitors@
    }
}

impl Registry {
    /// An empty registry: what startup degrades to when enumeration finds
    /// nothing or fails.
    pub fn new() -> (r: Registry)
        ensures
            r@ == Seq::<Monitor>::empty(),
    {
        Registry { monitors: Vec::new() }
    }

    /// Append one discovered monitor during enumeration.
    pub fn push_monitor(&mut self, reference: DisplayRef, brightness: u8)
        ensures
            final(self)@ == old(self)@.push(Monitor { display_ref: reference, brightness }),
    {
        self.monitors.push(Monitor { display_ref: reference, brightness });
    }

    /// How many monitors were discovered.
    pub fn len(&self) -> (n: usize)
        ensures
            n == self@.len(),
    {
        self.monitors.len()
    }

    /// The brightness currently shown for the monitor at `index`, or `None`
    /// when no such monitor exists.
    pub fn brightness_of(&self, index: usize) -> (b: Option<u8>)
        ensures
            index < self@.len() ==> b == Some(self@[index as int].brightness),
            index >= self@.len() ==> b is None,
    {
        if index < self.monitors.len() {
            Some(self.monitors[index].brightness)
        } else {
            None
        }
    }

    /// The display reference of the monitor at `index`, or `None` when no
    /// such monitor exists.
    pub fn reference_of(&self, index: usize) -> (d: Option<DisplayRef>)
        ensures
            index < self@.len() ==> d == Some(self@[index as int].display_ref),
            index >= self@.len() ==> d is None,
    {
        if index < self.monitors.len() {
            Some(self.monitors[index].display_ref)
        } else {
            None
        }
    }

    /// The optimistic local update a user change request triggers: the shown
    /// brightness of monitor `index` becomes `value` at once, before the
    /// write against the physical monitor completes, and is never rolled
    /// back should that write later fail. A request for an index outside the
    /// registry changes nothing. The registry's length and reference set are
    /// unchanged either way.
    pub fn apply_change_request(&mut self, index: usize, value: u8) -> (applied: bool)
        requires
            value <= 100,
        ensures
            applied == (index < old(self)@.len()),
            applied ==> final(self)@ == old(self)@.update(
                index as int,
                Monitor {
                    display_ref: old(self)@[index as int].display_ref,
                    brightness: value,
                },
            ),
            !applied ==> final(self)@ == old(self)@,
    {
        if index < self.monitors.len() {
            let reference = self.monitors[index].display_ref;
            self.monitors.set(index, Monitor { display_ref: reference, brightness: value });
            true
        } else {
            false
        }
    }
}

} // verus!
