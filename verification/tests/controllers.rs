use sdl_safe::SdlError;
use sdl_safe::event::game_controller::Axis;
use sdl_safe::event::game_controller::Button;
use sdl_safe::event::game_controller::ControllerProbe;
use sdl_safe::event::game_controller::GameControllerSet;
use sdl_safe::event::game_controller::MapInput;
use sdl_safe::event::game_controller::RawBind;
use sdl_safe::native::CallLog;
use sdl_safe::native::NativeCall;
use sdl_safe::native::Subsystem;

fn probe(is_controller: bool, handle: u64) -> ControllerProbe {
    ControllerProbe { is_controller, handle }
}

#[test]
fn all_recognized_indices_open_into_the_set_in_order() {
    let mut log = CallLog::new();
    // two recognized, two unrecognized: exactly the two handles, in order
    let set = GameControllerSet::new(
        &mut log,
        vec![probe(true, 11), probe(false, 91), probe(true, 22), probe(false, 92)],
    );
    assert_eq!(set.controllers().len(), 2);
    assert_eq!(log.calls(), &vec![NativeCall::Init(Subsystem::Joystick)]);

    let mut log = CallLog::new();
    set.close(&mut log);
    assert_eq!(
        log.calls(),
        &vec![
            NativeCall::Release(11),
            NativeCall::Release(22),
            NativeCall::Quit(Subsystem::Joystick),
        ]
    );
}

#[test]
fn recognized_indices_that_fail_to_open_are_silently_skipped() {
    let mut log = CallLog::new();
    // three recognized, but the middle open fails: only two members
    let set = GameControllerSet::new(
        &mut log,
        vec![probe(true, 11), probe(true, 0), probe(true, 33), probe(false, 0)],
    );
    assert_eq!(set.controllers().len(), 2);

    let mut log = CallLog::new();
    set.close(&mut log);
    assert_eq!(
        log.calls(),
        &vec![
            NativeCall::Release(11),
            NativeCall::Release(33),
            NativeCall::Quit(Subsystem::Joystick),
        ]
    );
}

#[test]
fn an_empty_enumeration_yields_an_empty_set() {
    let mut log = CallLog::new();
    let set = GameControllerSet::new(&mut log, vec![]);
    assert_eq!(set.controllers().len(), 0);
    let mut log = CallLog::new();
    set.close(&mut log);
    assert_eq!(log.calls(), &vec![NativeCall::Quit(Subsystem::Joystick)]);
}

#[test]
fn every_member_is_released_exactly_once_and_before_the_subsystem() {
    let mut log = CallLog::new();
    let set = GameControllerSet::new(&mut log, vec![probe(true, 5), probe(true, 6)]);
    set.close(&mut log);
    let calls = log.calls();
    for h in [5u64, 6u64] {
        let releases = calls
            .iter()
            .filter(|c| matches!(c, NativeCall::Release(x) if *x == h))
            .count();
        assert_eq!(releases, 1);
    }
    // the quit call comes last, after every member release
    assert_eq!(calls.last(), Some(&NativeCall::Quit(Subsystem::Joystick)));
}

#[test]
fn add_mapping_translates_the_native_sentinels() {
    let r = GameControllerSet::add_mapping("guid,pad,a:b0", -1, "bad mapping".to_string());
    assert_eq!(r, Err(SdlError::Others { msg: "bad mapping".to_string() }));
    let r = GameControllerSet::add_mapping("guid,pad,a:b0", 1, String::new());
    assert_eq!(r, Ok(true));
    let r = GameControllerSet::add_mapping("guid,pad,a:b0", 0, String::new());
    assert_eq!(r, Ok(false));
}

#[test]
fn add_mapping_from_file_counts_or_fails() {
    let r = GameControllerSet::add_mapping_from_file("gamecontrollerdb.txt", -2, "no file".to_string());
    assert_eq!(r, Err(SdlError::Others { msg: "no file".to_string() }));
    let r = GameControllerSet::add_mapping_from_file("gamecontrollerdb.txt", 35, String::new());
    assert_eq!(r, Ok(35));
}

#[test]
fn bind_queries_decode_the_native_union() {
    let mut log = CallLog::new();
    let set = GameControllerSet::new(&mut log, vec![probe(true, 77)]);
    {
        let c = &set.controllers()[0];
        let none = RawBind { kind: 0, value1: 0, value2: 0 };
        assert_eq!(c.bind_for_axis(Axis::LeftX, none), None);
        let button = RawBind { kind: 1, value1: 3, value2: 0 };
        assert_eq!(
            c.bind_for_button(Button::A, button),
            Some(MapInput::Button { index: 3 })
        );
        let axis = RawBind { kind: 2, value1: 1, value2: 0 };
        assert_eq!(c.bind_for_axis(Axis::RightY, axis), Some(MapInput::Axis { index: 1 }));
        let hat = RawBind { kind: 3, value1: 0, value2: 4 };
        assert_eq!(
            c.bind_for_button(Button::DpadLeft, hat),
            Some(MapInput::Hat { hat: 0, mask: 4 })
        );
        let unknown = RawBind { kind: 9, value1: 0, value2: 0 };
        assert_eq!(c.bind_for_axis(Axis::LeftY, unknown), None);
    }
    set.close(&mut log);
}

#[test]
fn names_and_mappings_are_forwarded() {
    let mut log = CallLog::new();
    let set = GameControllerSet::new(&mut log, vec![probe(true, 8)]);
    {
        let c = &set.controllers()[0];
        assert_eq!(c.name(Some("Gamepad".to_string())), "Gamepad");
        assert_eq!(c.name(None), "");
        assert_eq!(c.mapping("guid,pad,a:b0".to_string()), "guid,pad,a:b0");
    }
    set.close(&mut log);
}

#[test]
fn axis_and_button_codes_are_fixed() {
    assert_eq!(Axis::LeftX.as_raw(), 0);
    assert_eq!(Axis::TriggerRight.as_raw(), 5);
    assert_eq!(Button::A.as_raw(), 0);
    assert_eq!(Button::DpadRight.as_raw(), 14);
}
