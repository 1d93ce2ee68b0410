//! Audio device enumeration and the owning device wrapper.
//!
//! A device is opened by name (or as the default endpoint) with a desired
//! configuration; the native layer answers with a nonzero device id and
//! the negotiated configuration, or with the `0` sentinel and a last-error
//! message.  The wrapper owns the id until [`SpeakerDevice::close`]
//! records the one release call it is responsible for.

use vstd::prelude::*;

use crate::SdlError;
use crate::SdlResult;
use crate::c_string_safe;
use crate::native::CallLog;
use crate::native::NativeCall;
use crate::native::Subsystem;

use self::format::AudioFormat;
use self::status::AudioStatus;

pub mod format;
pub mod status;

verus! {

/// The configuration snapshot captured when a device was opened.  It is
/// decoupled from the handle and does not change after open.
#[derive(Debug, Clone, Copy, PartialEq, Eq, Structural)]
pub struct AudioDeviceProperty {
    pub sample_freq: u32,
    pub format: AudioFormat,
    pub channels: u8,
    pub samples: u16,
}

/// The configuration a caller asks the native open call for.
#[derive(Debug, Clone, Copy, PartialEq, Eq, Structural)]
pub struct AudioSpec {
    pub sample_freq: u32,
    pub format: AudioFormat,
    pub channels: u8,
    pub samples: u16,
}

/// Which parts of the desired configuration the native layer may change
/// when it cannot be met exactly.
#[derive(Debug, Clone, Copy, PartialEq, Eq, Structural)]
pub struct FallbackFlag {
    pub bits: u32,
}

impl FallbackFlag {
    /// Allow no change: the open fails unless the desired configuration
    /// is available exactly.
    pub fn nothing() -> (f: FallbackFlag)
        ensures
            f.bits == 0,
    {
        FallbackFlag { bits: 0 }
    }

    /// Allow the sample frequency to change.
    pub fn frequency_change() -> (f: FallbackFlag)
        ensures
            f.bits == 0x1,
    {
        FallbackFlag { bits: 0x1 }
    }

    /// Allow the sample format to change.
    pub fn format_change() -> (f: FallbackFlag)
        ensures
            f.bits == 0x2,
    {
        FallbackFlag { bits: 0x2 }
    }

    /// Allow the channel count to change.
    pub fn channels_change() -> (f: FallbackFlag)
        ensures
            f.bits == 0x4,
    {
        FallbackFlag { bits: 0x4 }
    }

    /// Allow the buffer size to change.
    pub fn samples_change() -> (f: FallbackFlag)
        ensures
            f.bits == 0x8,
    {
        FallbackFlag { bits: 0x8 }
    }

    /// Allow every property to change.
    pub fn any_change() -> (f: FallbackFlag)
        ensures
            f.bits == 0xF,
    {
        FallbackFlag { bits: 0xF }
    }

    /// Combines two sets of allowed changes.
    pub fn with(self, other: FallbackFlag) -> (f: FallbackFlag)
        ensures
            f.bits == self.bits | other.bits,
    {
        FallbackFlag { bits: self.bits | other.bits }
    }
}

/// What the native device-open call returned.
pub struct OpenReport {
    /// The opened device's id; `0` is the failure sentinel.
    pub id: u32,
    /// The negotiated configuration, meaningful when the open succeeded.
    pub actual: AudioSpec,
    /// The last-error message, meaningful when the open failed.
    pub error: String,
}

/// The property snapshot built from a negotiated configuration.
pub open spec fn spec_property(actual: AudioSpec) -> AudioDeviceProperty {
    AudioDeviceProperty {
        sample_freq: actual.sample_freq,
        format: actual.format,
        channels: actual.channels,
        samples: actual.samples,
    }
}

/// An open audio device, identified by the nonzero id the native layer
/// assigned at open time.
pub trait AudioDevice {
    /// The native id of this device.
    fn id(&self) -> u32;

    /// Decodes the playback status the native layer reported for this
    /// device.
    fn status(&self, raw: u32) -> (status: AudioStatus)
        ensures
            status == AudioStatus::spec_from_raw(raw),
    {
        AudioStatus::from_raw(raw)
    }
}

/// An owned playback endpoint.
pub struct SpeakerDevice {
    id: u32,
}

impl SpeakerDevice {
    /// The raw device id this wrapper owns.
    pub closed spec fn raw_id(&self) -> u32 {
        self.id
    }

    /// Initializes the audio subsystem and lists the playback endpoints,
    /// forwarding the names the native enumeration reported.
    pub fn all_devices(log: &mut CallLog, reported: Vec<String>) -> (names: Vec<String>)
        ensures
            final(log)@ == old(log)@.push(NativeCall::Init(Subsystem::Audio)),
            names == reported,
    {
        devices(log, reported)
    }

    /// Opens a playback endpoint, by name or as the default endpoint.
    ///
    /// A zero id from the native open call is always an error carrying
    /// the last-error message; a nonzero id becomes an owned wrapper
    /// together with the negotiated configuration snapshot.
    pub fn open(
        device: Option<String>,
        spec: &AudioSpec,
        fallback: FallbackFlag,
        report: OpenReport,
    ) -> (r: SdlResult<(SpeakerDevice, AudioDeviceProperty)>)
        requires
            device matches Some(name) ==> c_string_safe(name@),
        ensures
            report.id == 0 ==> r == Err::<(SpeakerDevice, AudioDeviceProperty), SdlError>(
                (SdlError::Others { msg: report.error }),
            ),
            report.id != 0 ==> (r matches Ok(pair) && pair.0.raw_id() == report.id && pair.1
                == spec_property(report.actual)),
    {
        match open_device(device, spec, fallback, report) {
            Ok((id, prop)) => Ok((SpeakerDevice { id }, prop)),
            Err(e) => Err(e),
        }
    }

    /// Releases the owned device handle: the one close call this wrapper
    /// is responsible for is recorded, and the wrapper is consumed.
    pub fn close(self, log: &mut CallLog)
        ensures
            final(log)@ == old(log)@.push(NativeCall::Release(self.raw_id() as u64)),
    {
        log.release(self.id as u64);
    }
}

impl AudioDevice for SpeakerDevice {
    fn id(&self) -> (id: u32)
        ensures
            id == self.raw_id(),
    {
        self.id
    }
}

/// An owned capture endpoint.
pub struct MicrophoneDevice {
    id: u32,
}

impl MicrophoneDevice {
    /// The raw device id this wrapper owns.
    pub closed spec fn raw_id(&self) -> u32 {
        self.id
    }

    /// Initializes the audio subsystem and lists the capture endpoints,
    /// forwarding the names the native enumeration reported.
    pub fn all_devices(log: &mut CallLog, reported: Vec<String>) -> (names: Vec<String>)
        ensures
            final(log)@ == old(log)@.push(NativeCall::Init(Subsystem::Audio)),
            names == reported,
    {
        devices(log, reported)
    }
}

impl AudioDevice for MicrophoneDevice {
    fn id(&self) -> (id: u32)
        ensures
            id == self.raw_id(),
    {
        self.id
    }
}

/// Initializes the audio subsystem and forwards the device names the
/// native enumeration reported.
fn devices(log: &mut CallLog, reported: Vec<String>) -> (names: Vec<String>)
    ensures
        final(log)@ == old(log)@.push(NativeCall::Init(Subsystem::Audio)),
        names == reported,
{
    log.init_subsystem(Subsystem::Audio);
    reported
}

/// Turns the outcome of the native open call into a typed result: the
/// `0` sentinel becomes an error carrying the last-error message, and a
/// real id is paired with the negotiated configuration snapshot.
#[allow(unused_variables)]
fn open_device(
    device: Option<String>,
    spec: &AudioSpec,
    fallback: FallbackFlag,
    report: OpenReport,
) -> (r: SdlResult<(u32, AudioDeviceProperty)>)
    requires
        device matches Some(name) ==> c_string_safe(name@),
    ensures
        report.id == 0 ==> r == Err::<(u32, AudioDeviceProperty), SdlError>(
            (SdlError::Others { msg: report.error }),
        ),
        report.id != 0 ==> r == Ok::<(u32, AudioDeviceProperty), SdlError>(
            (report.id, spec_property(report.actual)),
        ),
{
    if report.id == 0 {
        return Err(SdlError::Others { msg: report.error });
    }
    Ok((
        report.id,
        AudioDeviceProperty {
            sample_freq: report.actual.sample_freq,
            format: report.actual.format,
            channels: report.actual.channels,
            samples: report.actual.samples,
        },
    ))
}

} // verus!
