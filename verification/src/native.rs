//! The modeled native layer.
//!
//! The native library is observed through the calls the binding layer
//! issues into it.  A [`CallLog`] records those calls in order, so that
//! contracts can state exactly which subsystems were initialized, which
//! were torn down, and which handle was released when.  The log is the
//! ground truth for the ownership discipline: an owning wrapper must add
//! exactly one [`NativeCall::Release`] entry for its handle, and a set of
//! wrappers must release all of its members before quitting the subsystem
//! they belong to.

use vstd::prelude::*;

verus! {

/// A native subsystem with its own reference-counted init/quit lifecycle.
#[derive(Debug, Clone, Copy, PartialEq, Eq, Structural)]
pub enum Subsystem {
    Audio,
    Joystick,
    Sensor,
}

/// One call issued into the native layer that affects resource lifetimes.
#[derive(Debug, Clone, Copy, PartialEq, Eq, Structural)]
pub enum NativeCall {
    /// The subsystem's init call, incrementing its native reference count.
    Init(Subsystem),
    /// The subsystem's quit call, decrementing its native reference count.
    Quit(Subsystem),
    /// The close/free call for the handle with this raw value.
    Release(u64),
}

/// How often the handle `h` is released in `calls`.
pub open spec fn release_count(calls: Seq<NativeCall>, h: u64) -> nat
    decreases calls.len(),
{
    if calls.len() == 0 {
        0
    } else {
        release_count(calls.drop_last(), h) + if calls.last() == NativeCall::Release(h) {
            1nat
        } else {
            0nat
        }
    }
}

/// Releasing is counted per call: appending one log to another adds the
/// release counts.
pub proof fn lemma_release_count_add(a: Seq<NativeCall>, b: Seq<NativeCall>, h: u64)
    ensures
        release_count(a + b, h) == release_count(a, h) + release_count(b, h),
    decreases b.len(),
{
    if b.len() == 0 {
        assert(a + b =~= a);
    } else {
        lemma_release_count_add(a, b.drop_last(), h);
        assert((a + b).drop_last() =~= a + b.drop_last());
    }
}

/// The release calls for `handles`, one per handle, in order.
pub open spec fn release_calls(handles: Seq<u64>) -> Seq<NativeCall> {
    handles.map_values(|h: u64| NativeCall::Release(h))
}

/// Releasing a run of distinct handles touches each exactly once: the
/// release count of `h` over `release_calls(handles)` is one when `h` is
/// among the handles and zero when it is not.
pub proof fn lemma_release_calls_count(handles: Seq<u64>, h: u64)
    requires
        handles.no_duplicates(),
    ensures
        handles.contains(h) ==> release_count(release_calls(handles), h) == 1,
        !handles.contains(h) ==> release_count(release_calls(handles), h) == 0,
    decreases handles.len(),
{
    if handles.len() == 0 {
        assert(!handles.contains(h));
    } else {
        let rest = handles.drop_last();
        assert(release_calls(handles).drop_last() =~= release_calls(rest));
        assert(release_calls(handles).last() == NativeCall::Release(handles.last()));
        lemma_release_calls_count(rest, h);
        if handles.last() == h {
            assert(!rest.contains(h));
        } else {
            assert(handles.contains(h) ==> rest.contains(h)) by {
                if handles.contains(h) {
                    let i = choose|i: int| 0 <= i < handles.len() && handles[i] == h;
                    assert(rest[i] == h);
                }
            }
        }
        assert(rest.contains(h) ==> handles.contains(h)) by {
            if rest.contains(h) {
                let i = choose|i: int| 0 <= i < rest.len() && rest[i] == h;
                assert(handles[i] == h);
            }
        }
    }
}

/// A wrapper that records one release call on closing releases its
/// handle exactly once: the release count of the handle rises by one
/// and every other handle's count is untouched.
pub proof fn lemma_single_release_once(
    before: Seq<NativeCall>,
    after: Seq<NativeCall>,
    h: u64,
    other: u64,
)
    requires
        after == before.push(NativeCall::Release(h)),
        other != h,
    ensures
        release_count(after, h) == release_count(before, h) + 1,
        release_count(after, other) == release_count(before, other),
{
    assert(after.drop_last() =~= before);
}

/// An ordered record of the lifecycle-relevant calls issued into the
/// native layer.
pub struct CallLog {
    calls: Vec<NativeCall>,
}

impl CallLog {
    pub closed spec fn view(&self) -> Seq<NativeCall> {
        self.calls@
    }

    /// An empty record, for a binding layer that has not touched the
    /// native library yet.
    pub fn new() -> (log: Self)
        ensures
            log@ == Seq::<NativeCall>::empty(),
    {
        CallLog { calls: Vec::new() }
    }

    /// Records the init call of `sub`.
    pub fn init_subsystem(&mut self, sub: Subsystem)
        ensures
            final(self)@ == old(self)@.push(NativeCall::Init(sub)),
    {
        self.calls.push(NativeCall::Init(sub));
    }

    /// Records the quit call of `sub`.
    pub fn quit_subsystem(&mut self, sub: Subsystem)
        ensures
            final(self)@ == old(self)@.push(NativeCall::Quit(sub)),
    {
        self.calls.push(NativeCall::Quit(sub));
    }

    /// Records the close/free call for the handle `h`.
    pub fn release(&mut self, h: u64)
        ensures
            final(self)@ == old(self)@.push(NativeCall::Release(h)),
    {
        self.calls.push(NativeCall::Release(h));
    }

    /// The recorded calls, oldest first.
    pub fn calls(&self) -> (calls: &Vec<NativeCall>)
        ensures
            calls@ == self@,
    {
        &self.calls
    }
}

} // verus!
