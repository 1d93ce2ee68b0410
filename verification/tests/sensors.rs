use sdl_safe::event::sensor::SensorSet;
use sdl_safe::native::CallLog;
use sdl_safe::native::NativeCall;
use sdl_safe::native::Subsystem;

#[test]
fn every_enumerated_sensor_is_wrapped_in_order() {
    let mut log = CallLog::new();
    let set = SensorSet::new(&mut log, vec![101, 102, 103]);
    assert_eq!(set.sensors().len(), 3);
    assert_eq!(log.calls(), &vec![NativeCall::Init(Subsystem::Sensor)]);

    let mut log = CallLog::new();
    set.close(&mut log);
    assert_eq!(
        log.calls(),
        &vec![
            NativeCall::Release(101),
            NativeCall::Release(102),
            NativeCall::Release(103),
            NativeCall::Quit(Subsystem::Sensor),
        ]
    );
}

#[test]
fn each_sensor_is_released_exactly_once() {
    let mut log = CallLog::new();
    let set = SensorSet::new(&mut log, vec![9, 10]);
    set.close(&mut log);
    for h in [9u64, 10u64] {
        let releases = log
            .calls()
            .iter()
            .filter(|c| matches!(c, NativeCall::Release(x) if *x == h))
            .count();
        assert_eq!(releases, 1);
    }
    assert_eq!(log.calls().last(), Some(&NativeCall::Quit(Subsystem::Sensor)));
}

#[test]
fn a_failed_sensor_open_is_silently_skipped() {
    let mut log = CallLog::new();
    // the second and fourth opens failed: only the live handles remain,
    // in enumeration order, and no error surfaces
    let set = SensorSet::new(&mut log, vec![101, 0, 103, 0]);
    assert_eq!(set.sensors().len(), 2);
    let mut log = CallLog::new();
    set.close(&mut log);
    assert_eq!(
        log.calls(),
        &vec![
            NativeCall::Release(101),
            NativeCall::Release(103),
            NativeCall::Quit(Subsystem::Sensor),
        ]
    );
}

#[test]
fn an_all_failed_enumeration_yields_an_empty_sensor_set() {
    let mut log = CallLog::new();
    let set = SensorSet::new(&mut log, vec![0, 0]);
    assert_eq!(set.sensors().len(), 0);
}
