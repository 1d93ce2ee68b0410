//! Game-controller enumeration and the owning controller set.
//!
//! At subsystem init the native enumeration is probed index by index:
//! indices recognized as game controllers are opened, and only the
//! successfully opened handles are collected, in enumeration order.
//! Indices that fail to open are silently skipped by design.  The set
//! owns every collected handle and releases all members, then the
//! subsystem, when it is closed.

use vstd::prelude::*;

use crate::SdlError;
use crate::SdlResult;
use crate::c_string_safe;
use crate::native::CallLog;
use crate::native::NativeCall;
use crate::native::Subsystem;
use crate::native::release_calls;
use crate::native::release_count;
use crate::native::lemma_release_count_add;
use crate::native::lemma_release_calls_count;

verus! {

/// A controller axis the native layer can bind an input to.
#[derive(Debug, Clone, Copy, PartialEq, Eq, Structural)]
pub enum Axis {
    LeftX,
    LeftY,
    RightX,
    RightY,
    TriggerLeft,
    TriggerRight,
}

impl Axis {
    /// The fixed native code of this axis.
    pub open spec fn spec_code(self) -> i32 {
        match self {
            Axis::LeftX => 0,
            Axis::LeftY => 1,
            Axis::RightX => 2,
            Axis::RightY => 3,
            Axis::TriggerLeft => 4,
            Axis::TriggerRight => 5,
        }
    }

    /// Encodes this axis as the code the native layer expects.
    pub fn as_raw(self) -> (code: i32)
        ensures
            code == self.spec_code(),
    {
        match self {
            Axis::LeftX => 0,
            Axis::LeftY => 1,
            Axis::RightX => 2,
            Axis::RightY => 3,
            Axis::TriggerLeft => 4,
            Axis::TriggerRight => 5,
        }
    }
}

/// A controller button the native layer can bind an input to.
#[derive(Debug, Clone, Copy, PartialEq, Eq, Structural)]
pub enum Button {
    A,
    B,
    X,
    Y,
    Back,
    Guide,
    Start,
    LeftStick,
    RightStick,
    LeftShoulder,
    RightShoulder,
    DpadUp,
    DpadDown,
    DpadLeft,
    DpadRight,
}

impl Button {
    /// The fixed native code of this button.
    pub open spec fn spec_code(self) -> i32 {
        match self {
            Button::A => 0,
            Button::B => 1,
            Button::X => 2,
            Button::Y => 3,
            Button::Back => 4,
            Button::Guide => 5,
            Button::Start => 6,
            Button::LeftStick => 7,
            Button::RightStick => 8,
            Button::LeftShoulder => 9,
            Button::RightShoulder => 10,
            Button::DpadUp => 11,
            Button::DpadDown => 12,
            Button::DpadLeft => 13,
            Button::DpadRight => 14,
        }
    }

    /// Encodes this button as the code the native layer expects.
    pub fn as_raw(self) -> (code: i32)
        ensures
            code == self.spec_code(),
    {
        match self {
            Button::A => 0,
            Button::B => 1,
            Button::X => 2,
            Button::Y => 3,
            Button::Back => 4,
            Button::Guide => 5,
            Button::Start => 6,
            Button::LeftStick => 7,
            Button::RightStick => 8,
            Button::LeftShoulder => 9,
            Button::RightShoulder => 10,
            Button::DpadUp => 11,
            Button::DpadDown => 12,
            Button::DpadLeft => 13,
            Button::DpadRight => 14,
        }
    }
}

/// The physical input a controller axis or button is mapped to.
#[derive(Debug, Clone, Copy, PartialEq, Eq, Structural)]
pub enum MapInput {
    /// A joystick button, by index.
    Button { index: i32 },
    /// A joystick axis, by index.
    Axis { index: i32 },
    /// A joystick hat, by index and direction mask.
    Hat { hat: i32, mask: i32 },
}

/// What the native bind query returned: the bind-type tag and the raw
/// union fields that go with it.
#[derive(Debug, Clone, Copy, PartialEq, Eq, Structural)]
pub struct RawBind {
    /// The bind type: `0` none, `1` button, `2` axis, `3` hat.
    pub kind: u32,
    /// The button index, axis index, or hat index, by bind type.
    pub value1: i32,
    /// The hat direction mask; meaningful only for a hat bind.
    pub value2: i32,
}

impl RawBind {
    /// The typed input this raw bind stands for; `None` when the native
    /// layer reported no bind or an unknown bind type.
    pub open spec fn spec_decode(self) -> Option<MapInput> {
        if self.kind == 1 {
            Some(MapInput::Button { index: self.value1 })
        } else if self.kind == 2 {
            Some(MapInput::Axis { index: self.value1 })
        } else if self.kind == 3 {
            Some(MapInput::Hat { hat: self.value1, mask: self.value2 })
        } else {
            None
        }
    }
}

/// What the native enumeration reported for one joystick index.
#[derive(Debug, Clone, Copy, PartialEq, Eq, Structural)]
pub struct ControllerProbe {
    /// Whether the native layer recognizes this joystick as a game
    /// controller.
    pub is_controller: bool,
    /// The handle the native open call returned for it; `0` is the
    /// failure sentinel.
    pub handle: u64,
}

impl ControllerProbe {
    /// Whether this index contributes an owned controller: it is
    /// recognized and its open succeeded.
    pub open spec fn opens(self) -> bool {
        self.is_controller && self.handle != 0
    }
}

/// The handles collected from a native enumeration, in enumeration
/// order: the handle of every recognized joystick whose open succeeded,
/// and nothing else.
pub open spec fn spec_opened_handles(probes: Seq<ControllerProbe>) -> Seq<u64>
    decreases probes.len(),
{
    if probes.len() == 0 {
        Seq::empty()
    } else {
        let rest = spec_opened_handles(probes.drop_last());
        if probes.last().opens() {
            rest.push(probes.last().handle)
        } else {
            rest
        }
    }
}

/// How many indices of the enumeration were recognized as controllers.
pub open spec fn spec_recognized_count(probes: Seq<ControllerProbe>) -> nat
    decreases probes.len(),
{
    if probes.len() == 0 {
        0
    } else {
        spec_recognized_count(probes.drop_last()) + if probes.last().is_controller {
            1nat
        } else {
            0nat
        }
    }
}

/// A zero handle never enters the collection: every collected handle
/// comes from a successful open.
pub proof fn lemma_no_null_handle_collected(probes: Seq<ControllerProbe>)
    ensures
        forall|i: int|
            0 <= i < spec_opened_handles(probes).len() ==> spec_opened_handles(probes)[i] != 0,
    decreases probes.len(),
{
    if probes.len() != 0 {
        lemma_no_null_handle_collected(probes.drop_last());
        let rest = spec_opened_handles(probes.drop_last());
        let whole = spec_opened_handles(probes);
        if probes.last().opens() {
            assert forall|i: int| 0 <= i < whole.len() implies whole[i] != 0 by {
                if i < rest.len() {
                    assert(rest[i] != 0);
                } else {
                    assert(whole[i] == probes.last().handle);
                }
            }
        }
    }
}

/// The collection is exactly the recognized-and-opened subsequence of
/// the enumeration, in enumeration order.
pub proof fn lemma_collection_is_filtered_enumeration(probes: Seq<ControllerProbe>)
    ensures
        spec_opened_handles(probes) == probes.filter(|p: ControllerProbe| p.opens()).map_values(
            |p: ControllerProbe| p.handle,
        ),
    decreases probes.len(),
{
    reveal(Seq::filter);
    let pred = |p: ControllerProbe| p.opens();
    let to_handle = |p: ControllerProbe| p.handle;
    if probes.len() == 0 {
        assert(spec_opened_handles(probes) =~= probes.filter(pred).map_values(to_handle));
    } else {
        let rest = probes.drop_last();
        lemma_collection_is_filtered_enumeration(rest);
        if probes.last().opens() {
            assert(probes.filter(pred) == rest.filter(pred).push(probes.last()));
            assert(probes.filter(pred).map_values(to_handle) =~= rest.filter(pred).map_values(
                to_handle,
            ).push(probes.last().handle));
        } else {
            assert(probes.filter(pred) == rest.filter(pred));
        }
    }
}

/// With `N` recognized and `M` unrecognized indices, and every
/// recognized open succeeding, the collection holds exactly `N` handles.
pub proof fn lemma_all_recognized_collected(probes: Seq<ControllerProbe>)
    requires
        forall|i: int|
            0 <= i < probes.len() ==> (#[trigger] probes[i]).is_controller ==> probes[i].handle
                != 0,
    ensures
        spec_opened_handles(probes).len() == spec_recognized_count(probes),
    decreases probes.len(),
{
    if probes.len() != 0 {
        assert(forall|i: int|
            0 <= i < probes.drop_last().len() ==> (#[trigger] probes.drop_last()[i])
                == probes[i]);
        lemma_all_recognized_collected(probes.drop_last());
        assert(probes.last() == probes[probes.len() - 1]);
    }
}

/// When some recognized indices fail to open, those are omitted: the
/// collection never exceeds the recognized count.
pub proof fn lemma_collected_at_most_recognized(probes: Seq<ControllerProbe>)
    ensures
        spec_opened_handles(probes).len() <= spec_recognized_count(probes),
    decreases probes.len(),
{
    if probes.len() != 0 {
        lemma_collected_at_most_recognized(probes.drop_last());
    }
}

/// One opened game controller, owned by the set that collected it.
#[derive(Debug)]
pub struct GameController {
    handle: u64,
}

impl View for GameController {
    type V = u64;

    /// The raw handle this wrapper owns.
    closed spec fn view(&self) -> u64 {
        self.handle
    }
}

impl GameController {
    /// Forwards the mapping string the native query reported for this
    /// controller.  The native layer hands the string over in a buffer
    /// that is freed after copying.
    pub fn mapping(&self, reported: String) -> (mapping: String)
        ensures
            mapping == reported,
    {
        reported
    }

    /// The controller's name as the native query reported it; an absent
    /// name becomes the empty string.
    pub fn name(&self, reported: Option<String>) -> (name: String)
        ensures
            reported matches Some(s) ==> name == s,
            reported is None ==> name@ == Seq::<char>::empty(),
    {
        match reported {
            Some(s) => s,
            None => String::new(),
        }
    }

    /// Decodes the native bind query's answer for `axis`: no bind or an
    /// unknown bind type becomes `None`.
    #[allow(unused_variables)]
    pub fn bind_for_axis(&self, axis: Axis, raw: RawBind) -> (bind: Option<MapInput>)
        ensures
            bind == raw.spec_decode(),
    {
        Self::decode_bind(raw)
    }

    /// Decodes the native bind query's answer for `button`: no bind or
    /// an unknown bind type becomes `None`.
    #[allow(unused_variables)]
    pub fn bind_for_button(&self, button: Button, raw: RawBind) -> (bind: Option<MapInput>)
        ensures
            bind == raw.spec_decode(),
    {
        Self::decode_bind(raw)
    }

    fn decode_bind(raw: RawBind) -> (bind: Option<MapInput>)
        ensures
            bind == raw.spec_decode(),
    {
        if raw.kind == 1 {
            Some(MapInput::Button { index: raw.value1 })
        } else if raw.kind == 2 {
            Some(MapInput::Axis { index: raw.value1 })
        } else if raw.kind == 3 {
            Some(MapInput::Hat { hat: raw.value1, mask: raw.value2 })
        } else {
            None
        }
    }
}

/// The ordered collection of controllers opened at subsystem init, all
/// owned together and released together.
#[derive(Debug)]
pub struct GameControllerSet {
    controls: Vec<GameController>,
}

impl View for GameControllerSet {
    type V = Seq<u64>;

    /// The owned handles, in enumeration order.
    closed spec fn view(&self) -> Seq<u64> {
        self.controls@.map_values(|c: GameController| c@)
    }
}

impl GameControllerSet {
    /// The ownership discipline of a well-formed set: every member
    /// handle is nonzero and no handle is owned twice.
    pub open spec fn wf(&self) -> bool {
        &&& forall|i: int| 0 <= i < self@.len() ==> self@[i] != 0
        &&& self@.no_duplicates()
    }

    /// Initializes the joystick subsystem and collects one controller
    /// per recognized joystick whose open succeeded, in enumeration
    /// order.  Indices that fail to open are silently skipped.
    ///
    /// The native layer never reports the same live handle for two
    /// indices, so the collected handles are distinct.
    pub fn new(log: &mut CallLog, probes: Vec<ControllerProbe>) -> (set: GameControllerSet)
        requires
            spec_opened_handles(probes@).no_duplicates(),
        ensures
            set@ == spec_opened_handles(probes@),
            set.wf(),
            final(log)@ == old(log)@.push(NativeCall::Init(Subsystem::Joystick)),
    {
        log.init_subsystem(Subsystem::Joystick);
        let mut controls: Vec<GameController> = Vec::new();
        let n = probes.len();
        let mut i: usize = 0;
        while i < n
            invariant
                i <= n,
                n == probes@.len(),
                controls@.map_values(|c: GameController| c@) == spec_opened_handles(
                    probes@.take(i as int),
                ),
            decreases n - i,
        {
            let p = probes[i];
            proof {
                assert(probes@.take(i + 1 as int).drop_last() =~= probes@.take(i as int));
                assert(probes@.take(i + 1 as int).last() == p);
            }
            if p.is_controller && p.handle != 0 {
                let c = GameController { handle: p.handle };
                proof {
                    assert(controls@.push(c).map_values(|c: GameController| c@)
                        =~= controls@.map_values(|c: GameController| c@).push(p.handle));
                }
                controls.push(c);
            }
            i = i + 1;
        }
        proof {
            assert(probes@.take(n as int) =~= probes@);
            lemma_no_null_handle_collected(probes@);
        }
        GameControllerSet { controls }
    }

    /// Installs a controller mapping string.  `ret` and `error` are the
    /// native call's return code and, on failure, the last-error
    /// message: `-1` is the failure sentinel, `1` reports a new mapping
    /// and any other success code an updated one.
    #[allow(unused_variables)]
    pub fn add_mapping(string: &str, ret: i32, error: String) -> (r: SdlResult<bool>)
        requires
            c_string_safe(string@),
        ensures
            ret == -1 ==> r == Err::<bool, SdlError>((SdlError::Others { msg: error })),
            ret != -1 ==> r == Ok::<bool, SdlError>(ret == 1),
    {
        if ret == -1 {
            Err(SdlError::Others { msg: error })
        } else {
            Ok(ret == 1)
        }
    }

    /// Installs controller mappings from a file the native layer reads.
    /// `ret` is the native call's return code: negative is the failure
    /// sentinel, otherwise it is the number of mappings installed.
    #[allow(unused_variables)]
    pub fn add_mapping_from_file(file_name: &str, ret: i32, error: String) -> (r: SdlResult<u32>)
        requires
            c_string_safe(file_name@),
        ensures
            ret < 0 ==> r == Err::<u32, SdlError>((SdlError::Others { msg: error })),
            ret >= 0 ==> r == Ok::<u32, SdlError>(ret as u32),
    {
        if ret < 0 {
            Err(SdlError::Others { msg: error })
        } else {
            Ok(ret as u32)
        }
    }

    /// The owned controllers, in enumeration order.  Members cannot be
    /// removed individually; the whole set is released together.
    pub fn controllers(&self) -> (controls: &Vec<GameController>)
        ensures
            controls@.map_values(|c: GameController| c@) == self@,
    {
        &self.controls
    }

    /// Releases the whole set: one close call per member, in order, and
    /// then — only after every member — the subsystem quit call.
    pub fn close(self, log: &mut CallLog)
        ensures
            final(log)@ == old(log)@ + release_calls(self@).push(
                NativeCall::Quit(Subsystem::Joystick),
            ),
    {
        let ghost log0 = log@;
        let ghost handles = self@;
        let n = self.controls.len();
        let mut i: usize = 0;
        while i < n
            invariant
                i <= n,
                n == self.controls@.len(),
                handles == self.controls@.map_values(|c: GameController| c@),
                log@ == log0 + release_calls(handles.take(i as int)),
            decreases n - i,
        {
            let h = self.controls[i].handle;
            proof {
                assert(handles.take(i + 1 as int) =~= handles.take(i as int).push(h));
                assert(release_calls(handles.take(i as int).push(h)) =~= release_calls(
                    handles.take(i as int),
                ).push(NativeCall::Release(h)));
            }
            log.release(h);
            i = i + 1;
        }
        proof {
            assert(handles.take(n as int) =~= handles);
        }
        log.quit_subsystem(Subsystem::Joystick);
    }
}

/// Closing a well-formed set releases every owned handle exactly once:
/// across the calls recorded by [`GameControllerSet::close`], the
/// release count of each member handle rises by exactly one.
pub proof fn lemma_close_releases_each_member_once(
    before: Seq<NativeCall>,
    after: Seq<NativeCall>,
    handles: Seq<u64>,
    h: u64,
)
    requires
        handles.no_duplicates(),
        handles.contains(h),
        after == before + release_calls(handles).push(NativeCall::Quit(Subsystem::Joystick)),
    ensures
        release_count(after, h) == release_count(before, h) + 1,
{
    let tail = release_calls(handles).push(NativeCall::Quit(Subsystem::Joystick));
    lemma_release_count_add(before, tail, h);
    assert(tail.drop_last() =~= release_calls(handles));
    lemma_release_calls_count(handles, h);
}

} // verus!
