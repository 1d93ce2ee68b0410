//! Motion-sensor enumeration and the owning sensor set.
//!
//! At subsystem init the native enumeration is opened index by index;
//! only the handles whose open succeeded are collected, in enumeration
//! order, and an index that fails to open (the `0` sentinel) is
//! silently skipped — no partial-open error surfaces.  The set owns
//! every collected handle and releases all members, then the subsystem,
//! when it is closed.

use vstd::prelude::*;

use crate::native::CallLog;
use crate::native::NativeCall;
use crate::native::Subsystem;
use crate::native::release_calls;
use crate::native::release_count;
use crate::native::lemma_release_count_add;
use crate::native::lemma_release_calls_count;

verus! {

/// One opened motion sensor, owned by the set that collected it.
pub struct Sensor {
    handle: u64,
}

impl View for Sensor {
    type V = u64;

    /// The raw handle this wrapper owns.
    closed spec fn view(&self) -> u64 {
        self.handle
    }
}

/// The handles collected from a native enumeration, in enumeration
/// order: every sensor whose open succeeded, and nothing else.  `0` is
/// the failed-open sentinel and is skipped.
pub open spec fn spec_opened_sensors(handles: Seq<u64>) -> Seq<u64>
    decreases handles.len(),
{
    if handles.len() == 0 {
        Seq::empty()
    } else {
        let rest = spec_opened_sensors(handles.drop_last());
        if handles.last() != 0 {
            rest.push(handles.last())
        } else {
            rest
        }
    }
}

/// A zero handle never enters the collection: a failed open is skipped
/// and never becomes a usable member.
pub proof fn lemma_no_null_sensor_collected(handles: Seq<u64>)
    ensures
        forall|i: int|
            0 <= i < spec_opened_sensors(handles).len() ==> spec_opened_sensors(handles)[i] != 0,
    decreases handles.len(),
{
    if handles.len() != 0 {
        lemma_no_null_sensor_collected(handles.drop_last());
        let rest = spec_opened_sensors(handles.drop_last());
        let whole = spec_opened_sensors(handles);
        if handles.last() != 0 {
            assert forall|i: int| 0 <= i < whole.len() implies whole[i] != 0 by {
                if i < rest.len() {
                    assert(rest[i] != 0);
                } else {
                    assert(whole[i] == handles.last());
                }
            }
        }
    }
}

/// When every open succeeded, every handle is collected, in order.
pub proof fn lemma_all_sensors_collected(handles: Seq<u64>)
    requires
        forall|i: int| 0 <= i < handles.len() ==> handles[i] != 0,
    ensures
        spec_opened_sensors(handles) == handles,
    decreases handles.len(),
{
    if handles.len() != 0 {
        let rest = handles.drop_last();
        assert(forall|i: int| 0 <= i < rest.len() ==> rest[i] == handles[i]);
        lemma_all_sensors_collected(rest);
        assert(handles.last() == handles[handles.len() - 1]);
        assert(spec_opened_sensors(handles) =~= handles);
    }
}

/// The ordered collection of sensors opened at subsystem init, all
/// owned together and released together.
pub struct SensorSet(Vec<Sensor>);

impl View for SensorSet {
    type V = Seq<u64>;

    /// The owned handles, in enumeration order.
    closed spec fn view(&self) -> Seq<u64> {
        self.0@.map_values(|s: Sensor| s@)
    }
}

impl SensorSet {
    /// The ownership discipline of a well-formed set: every member
    /// handle is nonzero and no handle is owned twice.
    pub open spec fn wf(&self) -> bool {
        &&& forall|i: int| 0 <= i < self@.len() ==> self@[i] != 0
        &&& self@.no_duplicates()
    }

    /// Initializes the sensor subsystem and wraps the handle of every
    /// enumerated sensor whose open succeeded, in enumeration order.
    /// An index whose open failed (the `0` sentinel) is silently
    /// skipped: no wrapper over a null handle is ever exposed, and no
    /// partial-open error surfaces.
    ///
    /// The native layer never reports the same live handle for two
    /// indices, so the collected handles are distinct.
    pub fn new(log: &mut CallLog, handles: Vec<u64>) -> (set: SensorSet)
        requires
            spec_opened_sensors(handles@).no_duplicates(),
        ensures
            set@ == spec_opened_sensors(handles@),
            set.wf(),
            final(log)@ == old(log)@.push(NativeCall::Init(Subsystem::Sensor)),
    {
        log.init_subsystem(Subsystem::Sensor);
        let mut members: Vec<Sensor> = Vec::new();
        let n = handles.len();
        let mut i: usize = 0;
        while i < n
            invariant
                i <= n,
                n == handles@.len(),
                members@.map_values(|s: Sensor| s@) == spec_opened_sensors(
                    handles@.take(i as int),
                ),
            decreases n - i,
        {
            let h = handles[i];
            proof {
                assert(handles@.take(i + 1 as int).drop_last() =~= handles@.take(i as int));
                assert(handles@.take(i + 1 as int).last() == h);
            }
            if h != 0 {
                let s = Sensor { handle: h };
                proof {
                    assert(members@.push(s).map_values(|s: Sensor| s@) =~= members@.map_values(
                        |s: Sensor| s@,
                    ).push(h));
                }
                members.push(s);
            }
            i = i + 1;
        }
        proof {
            assert(handles@.take(n as int) =~= handles@);
            lemma_no_null_sensor_collected(handles@);
        }
        SensorSet(members)
    }

    /// The owned sensors, in enumeration order.  Members cannot be
    /// removed individually; the whole set is released together.
    pub fn sensors(&self) -> (members: &Vec<Sensor>)
        ensures
            members@.map_values(|s: Sensor| s@) == self@,
    {
        &self.0
    }

    /// Releases the whole set: one close call per member, in order, and
    /// then — only after every member — the subsystem quit call.
    pub fn close(self, log: &mut CallLog)
        ensures
            final(log)@ == old(log)@ + release_calls(self@).push(
                NativeCall::Quit(Subsystem::Sensor),
            ),
    {
        let ghost log0 = log@;
        let ghost handles = self@;
        let n = self.0.len();
        let mut i: usize = 0;
        while i < n
            invariant
                i <= n,
                n == self.0@.len(),
                handles == self.0@.map_values(|s: Sensor| s@),
                log@ == log0 + release_calls(handles.take(i as int)),
            decreases n - i,
        {
            let h = self.0[i].handle;
            proof {
                assert(handles.take(i + 1 as int) =~= handles.take(i as int).push(h));
                assert(release_calls(handles.take(i as int).push(h)) =~= release_calls(
                    handles.take(i as int),
                ).push(NativeCall::Release(h)));
            }
            log.release(h);
            i = i + 1;
        }
        proof {
            assert(handles.take(n as int) =~= handles);
        }
        log.quit_subsystem(Subsystem::Sensor);
    }
}

/// Closing a well-formed set releases every owned handle exactly once:
/// across the calls recorded by [`SensorSet::close`], the release count
/// of each member handle rises by exactly one.
pub proof fn lemma_close_releases_each_sensor_once(
    before: Seq<NativeCall>,
    after: Seq<NativeCall>,
    handles: Seq<u64>,
    h: u64,
)
    requires
        handles.no_duplicates(),
        handles.contains(h),
        after == before + release_calls(handles).push(NativeCall::Quit(Subsystem::Sensor)),
    ensures
        release_count(after, h) == release_count(before, h) + 1,
{
    let tail = release_calls(handles).push(NativeCall::Quit(Subsystem::Sensor));
    lemma_release_count_add(before, tail, h);
    assert(tail.drop_last() =~= release_calls(handles));
    lemma_release_calls_count(handles, h);
}

} // verus!
