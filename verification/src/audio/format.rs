//! Sample-format identifiers and their fixed native tag codes.
//!
//! A format tag is a 16-bit code whose bits describe sample width,
//! signedness, endianness and float layout.  The enumeration is closed and
//! maps one-to-one to the tag codes.

use vstd::prelude::*;

verus! {

/// The sample encoding a device consumes or produces.
#[derive(Debug, Clone, Copy, PartialEq, Eq, Structural)]
pub enum AudioFormat {
    /// Unsigned 8-bit samples.
    U8,
    /// Signed 8-bit samples.
    S8,
    /// Unsigned 16-bit samples, little endian.
    U16Lsb,
    /// Unsigned 16-bit samples, big endian.
    U16Msb,
    /// Signed 16-bit samples, little endian.
    S16Lsb,
    /// Signed 16-bit samples, big endian.
    S16Msb,
    /// Signed 32-bit samples, little endian.
    S32Lsb,
    /// Signed 32-bit samples, big endian.
    S32Msb,
    /// 32-bit float samples, little endian.
    F32Lsb,
    /// 32-bit float samples, big endian.
    F32Msb,
}

impl AudioFormat {
    /// The fixed native tag code of this format.
    pub open spec fn spec_tag(self) -> u16 {
        match self {
            AudioFormat::U8 => 0x0008,
            AudioFormat::S8 => 0x8008,
            AudioFormat::U16Lsb => 0x0010,
            AudioFormat::U16Msb => 0x1010,
            AudioFormat::S16Lsb => 0x8010,
            AudioFormat::S16Msb => 0x9010,
            AudioFormat::S32Lsb => 0x8020,
            AudioFormat::S32Msb => 0x9020,
            AudioFormat::F32Lsb => 0x8120,
            AudioFormat::F32Msb => 0x9120,
        }
    }

    /// Encodes this format as the tag code the native layer expects.
    pub fn into_raw(self) -> (raw: u16)
        ensures
            raw == self.spec_tag(),
    {
        match self {
            AudioFormat::U8 => 0x0008,
            AudioFormat::S8 => 0x8008,
            AudioFormat::U16Lsb => 0x0010,
            AudioFormat::U16Msb => 0x1010,
            AudioFormat::S16Lsb => 0x8010,
            AudioFormat::S16Msb => 0x9010,
            AudioFormat::S32Lsb => 0x8020,
            AudioFormat::S32Msb => 0x9020,
            AudioFormat::F32Lsb => 0x8120,
            AudioFormat::F32Msb => 0x9120,
        }
    }

    /// The format a tag code stands for, or `None` for a code outside the
    /// closed set.
    pub open spec fn spec_from_raw(raw: u16) -> Option<AudioFormat> {
        if raw == 0x0008 {
            Some(AudioFormat::U8)
        } else if raw == 0x8008 {
            Some(AudioFormat::S8)
        } else if raw == 0x0010 {
            Some(AudioFormat::U16Lsb)
        } else if raw == 0x1010 {
            Some(AudioFormat::U16Msb)
        } else if raw == 0x8010 {
            Some(AudioFormat::S16Lsb)
        } else if raw == 0x9010 {
            Some(AudioFormat::S16Msb)
        } else if raw == 0x8020 {
            Some(AudioFormat::S32Lsb)
        } else if raw == 0x9020 {
            Some(AudioFormat::S32Msb)
        } else if raw == 0x8120 {
            Some(AudioFormat::F32Lsb)
        } else if raw == 0x9120 {
            Some(AudioFormat::F32Msb)
        } else {
            None
        }
    }

    /// Decodes a native tag code back into the format it stands for.
    pub fn from_raw(raw: u16) -> (format: Option<AudioFormat>)
        ensures
            format == AudioFormat::spec_from_raw(raw),
    {
        if raw == 0x0008 {
            Some(AudioFormat::U8)
        } else if raw == 0x8008 {
            Some(AudioFormat::S8)
        } else if raw == 0x0010 {
            Some(AudioFormat::U16Lsb)
        } else if raw == 0x1010 {
            Some(AudioFormat::U16Msb)
        } else if raw == 0x8010 {
            Some(AudioFormat::S16Lsb)
        } else if raw == 0x9010 {
            Some(AudioFormat::S16Msb)
        } else if raw == 0x8020 {
            Some(AudioFormat::S32Lsb)
        } else if raw == 0x9020 {
            Some(AudioFormat::S32Msb)
        } else if raw == 0x8120 {
            Some(AudioFormat::F32Lsb)
        } else if raw == 0x9120 {
            Some(AudioFormat::F32Msb)
        } else {
            None
        }
    }
}

/// Round trip: decoding a format's own tag code recovers the format.
pub proof fn lemma_format_tag_round_trip(f: AudioFormat)
    ensures
        AudioFormat::spec_from_raw(f.spec_tag()) == Some(f),
{
}

/// The tag codes are injective: no two formats share one.
pub proof fn lemma_format_tag_injective(f1: AudioFormat, f2: AudioFormat)
    requires
        f1.spec_tag() == f2.spec_tag(),
    ensures
        f1 == f2,
{
    lemma_format_tag_round_trip(f1);
    lemma_format_tag_round_trip(f2);
}

} // verus!
