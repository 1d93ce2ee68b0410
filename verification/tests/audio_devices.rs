use sdl_safe::SdlError;
use sdl_safe::audio::AudioDevice;
use sdl_safe::audio::AudioSpec;
use sdl_safe::audio::FallbackFlag;
use sdl_safe::audio::MicrophoneDevice;
use sdl_safe::audio::OpenReport;
use sdl_safe::audio::SpeakerDevice;
use sdl_safe::audio::format::AudioFormat;
use sdl_safe::audio::status::AudioStatus;
use sdl_safe::native::CallLog;
use sdl_safe::native::NativeCall;
use sdl_safe::native::Subsystem;

fn desired() -> AudioSpec {
    AudioSpec { sample_freq: 48000, format: AudioFormat::S16Lsb, channels: 2, samples: 1024 }
}

#[test]
fn enumeration_initializes_the_subsystem_and_forwards_names() {
    let mut log = CallLog::new();
    let names = SpeakerDevice::all_devices(
        &mut log,
        vec!["Speakers".to_string(), "HDMI Output".to_string()],
    );
    assert_eq!(names, vec!["Speakers".to_string(), "HDMI Output".to_string()]);
    assert_eq!(log.calls(), &vec![NativeCall::Init(Subsystem::Audio)]);

    let names = MicrophoneDevice::all_devices(&mut log, vec!["Mic".to_string()]);
    assert_eq!(names, vec!["Mic".to_string()]);
    assert_eq!(
        log.calls(),
        &vec![NativeCall::Init(Subsystem::Audio), NativeCall::Init(Subsystem::Audio)]
    );
}

#[test]
fn opening_with_the_zero_sentinel_is_always_an_error() {
    let report = OpenReport {
        id: 0,
        actual: desired(),
        error: "No such device".to_string(),
    };
    let r = SpeakerDevice::open(None, &desired(), FallbackFlag::nothing(), report);
    match r {
        Err(SdlError::Others { msg }) => assert_eq!(msg, "No such device"),
        _ => panic!("a zero id must never become a usable wrapper"),
    }
}

#[test]
fn opening_returns_the_negotiated_property_snapshot() {
    let negotiated = AudioSpec {
        sample_freq: 44100,
        format: AudioFormat::F32Lsb,
        channels: 2,
        samples: 512,
    };
    let report = OpenReport { id: 42, actual: negotiated, error: String::new() };
    let (device, prop) = SpeakerDevice::open(
        Some("Speakers".to_string()),
        &desired(),
        FallbackFlag::any_change(),
        report,
    )
    .expect("a nonzero id must open");
    assert_eq!(device.id(), 42);
    assert_eq!(prop.sample_freq, 44100);
    assert_eq!(prop.format, AudioFormat::F32Lsb);
    assert_eq!(prop.channels, 2);
    assert_eq!(prop.samples, 512);
}

#[test]
fn closing_a_device_releases_its_handle_exactly_once() {
    let report = OpenReport { id: 7, actual: desired(), error: String::new() };
    let (device, _) = SpeakerDevice::open(None, &desired(), FallbackFlag::nothing(), report)
        .expect("open");
    let mut log = CallLog::new();
    device.close(&mut log);
    let releases = log
        .calls()
        .iter()
        .filter(|c| matches!(c, NativeCall::Release(7)))
        .count();
    assert_eq!(releases, 1);
    assert_eq!(log.calls().len(), 1);
}

#[test]
fn status_codes_decode_to_the_three_states() {
    let report = OpenReport { id: 3, actual: desired(), error: String::new() };
    let (device, _) = SpeakerDevice::open(None, &desired(), FallbackFlag::nothing(), report)
        .expect("open");
    assert_eq!(device.status(0), AudioStatus::Stopped);
    assert_eq!(device.status(1), AudioStatus::Playing);
    assert_eq!(device.status(2), AudioStatus::Paused);
    assert_eq!(device.status(99), AudioStatus::Stopped);
}

#[test]
fn format_tag_round_trip_recovers_the_member() {
    let members = [
        AudioFormat::U8,
        AudioFormat::S8,
        AudioFormat::U16Lsb,
        AudioFormat::U16Msb,
        AudioFormat::S16Lsb,
        AudioFormat::S16Msb,
        AudioFormat::S32Lsb,
        AudioFormat::S32Msb,
        AudioFormat::F32Lsb,
        AudioFormat::F32Msb,
    ];
    for f in members {
        assert_eq!(AudioFormat::from_raw(f.into_raw()), Some(f));
    }
    for (i, a) in members.iter().enumerate() {
        for (j, b) in members.iter().enumerate() {
            assert_eq!(a.into_raw() == b.into_raw(), i == j);
        }
    }
    assert_eq!(AudioFormat::from_raw(0xFFFF), None);
    assert_eq!(AudioFormat::S16Lsb.into_raw(), 0x8010);
}

#[test]
fn fallback_flags_combine_bitwise() {
    assert_eq!(FallbackFlag::nothing().bits, 0);
    assert_eq!(FallbackFlag::any_change().bits, 0xF);
    let f = FallbackFlag::frequency_change().with(FallbackFlag::samples_change());
    assert_eq!(f.bits, 0x9);
    assert_eq!(FallbackFlag::format_change().bits | FallbackFlag::channels_change().bits, 0x6);
}
