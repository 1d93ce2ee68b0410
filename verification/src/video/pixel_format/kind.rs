//! The closed set of pixel-encoding descriptors.
//!
//! Each kind maps one-to-one to a fixed native tag code, and each
//! true-color kind fixes a packed-channel layout: per channel, how many
//! of its eight bits are dropped (the loss) and where the kept bits sit
//! (the shift).  A channel with loss `8` is absent.  The channel masks
//! follow from loss and shift.

use vstd::prelude::*;

verus! {

/// Where one channel of a packed true-color pixel sits.
#[derive(Debug, Clone, Copy, PartialEq, Eq, Structural)]
pub struct ChannelLayout {
    /// How many of the channel's eight bits are dropped when packing.
    pub loss: u8,
    /// How far the kept bits are shifted into the pixel.
    pub shift: u8,
}

/// The packed layout of the four channels of a true-color kind.
#[derive(Debug, Clone, Copy, PartialEq, Eq, Structural)]
pub struct TrueColorLayout {
    pub red: ChannelLayout,
    pub green: ChannelLayout,
    pub blue: ChannelLayout,
    pub alpha: ChannelLayout,
}

/// A well-formed layout keeps every shift amount inside a 32-bit pixel.
pub open spec fn spec_layout_wf(l: TrueColorLayout) -> bool {
    &&& l.red.loss <= 8 && l.red.shift <= 24
    &&& l.green.loss <= 8 && l.green.shift <= 24
    &&& l.blue.loss <= 8 && l.blue.shift <= 24
    &&& l.alpha.loss <= 8 && l.alpha.shift <= 24
}

/// A pixel encoding the descriptor allocator understands.
#[derive(Debug, Clone, Copy, PartialEq, Eq, Structural)]
pub enum PixelFormatKind {
    Index8,
    Rgb332,
    Rgb444,
    Rgb555,
    Rgb565,
    Argb1555,
    Argb4444,
    Rgb888,
    Argb8888,
    Rgba8888,
    Abgr8888,
    Bgra8888,
}

impl PixelFormatKind {
    /// The fixed native tag code of this kind.
    pub open spec fn spec_tag(self) -> u32 {
        match self {
            PixelFormatKind::Index8 => 0x13000801,
            PixelFormatKind::Rgb332 => 0x14110801,
            PixelFormatKind::Rgb444 => 0x15120C02,
            PixelFormatKind::Rgb555 => 0x15130F02,
            PixelFormatKind::Rgb565 => 0x15151002,
            PixelFormatKind::Argb1555 => 0x15331002,
            PixelFormatKind::Argb4444 => 0x15321002,
            PixelFormatKind::Rgb888 => 0x16161804,
            PixelFormatKind::Argb8888 => 0x16362004,
            PixelFormatKind::Rgba8888 => 0x16462004,
            PixelFormatKind::Abgr8888 => 0x16762004,
            PixelFormatKind::Bgra8888 => 0x16862004,
        }
    }

    /// Encodes this kind as the tag code the native layer expects.
    pub fn into_raw(self) -> (raw: u32)
        ensures
            raw == self.spec_tag(),
    {
        match self {
            PixelFormatKind::Index8 => 0x13000801,
            PixelFormatKind::Rgb332 => 0x14110801,
            PixelFormatKind::Rgb444 => 0x15120C02,
            PixelFormatKind::Rgb555 => 0x15130F02,
            PixelFormatKind::Rgb565 => 0x15151002,
            PixelFormatKind::Argb1555 => 0x15331002,
            PixelFormatKind::Argb4444 => 0x15321002,
            PixelFormatKind::Rgb888 => 0x16161804,
            PixelFormatKind::Argb8888 => 0x16362004,
            PixelFormatKind::Rgba8888 => 0x16462004,
            PixelFormatKind::Abgr8888 => 0x16762004,
            PixelFormatKind::Bgra8888 => 0x16862004,
        }
    }

    /// The kind a tag code stands for, or `None` for a code outside
    /// the closed set.
    pub open spec fn spec_from_raw(raw: u32) -> Option<PixelFormatKind> {
        if raw == 0x13000801 {
            Some(PixelFormatKind::Index8)
        } else if raw == 0x14110801 {
            Some(PixelFormatKind::Rgb332)
        } else if raw == 0x15120C02 {
            Some(PixelFormatKind::Rgb444)
        } else if raw == 0x15130F02 {
            Some(PixelFormatKind::Rgb555)
        } else if raw == 0x15151002 {
            Some(PixelFormatKind::Rgb565)
        } else if raw == 0x15331002 {
            Some(PixelFormatKind::Argb1555)
        } else if raw == 0x15321002 {
            Some(PixelFormatKind::Argb4444)
        } else if raw == 0x16161804 {
            Some(PixelFormatKind::Rgb888)
        } else if raw == 0x16362004 {
            Some(PixelFormatKind::Argb8888)
        } else if raw == 0x16462004 {
            Some(PixelFormatKind::Rgba8888)
        } else if raw == 0x16762004 {
            Some(PixelFormatKind::Abgr8888)
        } else if raw == 0x16862004 {
            Some(PixelFormatKind::Bgra8888)
        } else {
            None
        }
    }

    /// Decodes a native tag code back into the kind it stands for.
    pub fn from_raw(raw: u32) -> (kind: Option<PixelFormatKind>)
        ensures
            kind == PixelFormatKind::spec_from_raw(raw),
    {
        if raw == 0x13000801 {
            Some(PixelFormatKind::Index8)
        } else if raw == 0x14110801 {
            Some(PixelFormatKind::Rgb332)
        } else if raw == 0x15120C02 {
            Some(PixelFormatKind::Rgb444)
        } else if raw == 0x15130F02 {
            Some(PixelFormatKind::Rgb555)
        } else if raw == 0x15151002 {
            Some(PixelFormatKind::Rgb565)
        } else if raw == 0x15331002 {
            Some(PixelFormatKind::Argb1555)
        } else if raw == 0x15321002 {
            Some(PixelFormatKind::Argb4444)
        } else if raw == 0x16161804 {
            Some(PixelFormatKind::Rgb888)
        } else if raw == 0x16362004 {
            Some(PixelFormatKind::Argb8888)
        } else if raw == 0x16462004 {
            Some(PixelFormatKind::Rgba8888)
        } else if raw == 0x16762004 {
            Some(PixelFormatKind::Abgr8888)
        } else if raw == 0x16862004 {
            Some(PixelFormatKind::Bgra8888)
        } else {
            None
        }
    }

    /// Whether this kind is palette-indexed rather than true-color.
    pub open spec fn spec_is_palette(self) -> bool {
        self is Index8
    }

    /// Whether this kind is palette-indexed rather than true-color.
    pub fn is_palette(self) -> (p: bool)
        ensures
            p == self.spec_is_palette(),
    {
        match self {
            PixelFormatKind::Index8 => true,
            _ => false,
        }
    }

    /// The declared bit depth of one pixel.
    pub open spec fn spec_bits_per_pixel(self) -> u8 {
        match self {
            PixelFormatKind::Index8 => 8,
            PixelFormatKind::Rgb332 => 8,
            PixelFormatKind::Rgb444 => 12,
            PixelFormatKind::Rgb555 => 15,
            PixelFormatKind::Rgb565 => 16,
            PixelFormatKind::Argb1555 => 16,
            PixelFormatKind::Argb4444 => 16,
            PixelFormatKind::Rgb888 => 24,
            PixelFormatKind::Argb8888 => 32,
            PixelFormatKind::Rgba8888 => 32,
            PixelFormatKind::Abgr8888 => 32,
            PixelFormatKind::Bgra8888 => 32,
        }
    }

    /// The declared bit depth of one pixel.
    pub fn bits_per_pixel(self) -> (bits: u8)
        ensures
            bits == self.spec_bits_per_pixel(),
    {
        match self {
            PixelFormatKind::Index8 => 8,
            PixelFormatKind::Rgb332 => 8,
            PixelFormatKind::Rgb444 => 12,
            PixelFormatKind::Rgb555 => 15,
            PixelFormatKind::Rgb565 => 16,
            PixelFormatKind::Argb1555 => 16,
            PixelFormatKind::Argb4444 => 16,
            PixelFormatKind::Rgb888 => 24,
            PixelFormatKind::Argb8888 => 32,
            PixelFormatKind::Rgba8888 => 32,
            PixelFormatKind::Abgr8888 => 32,
            PixelFormatKind::Bgra8888 => 32,
        }
    }

    /// How many bytes one pixel occupies.
    pub open spec fn spec_bytes_per_pixel(self) -> u8 {
        match self {
            PixelFormatKind::Index8 => 1,
            PixelFormatKind::Rgb332 => 1,
            PixelFormatKind::Rgb444 => 2,
            PixelFormatKind::Rgb555 => 2,
            PixelFormatKind::Rgb565 => 2,
            PixelFormatKind::Argb1555 => 2,
            PixelFormatKind::Argb4444 => 2,
            PixelFormatKind::Rgb888 => 4,
            PixelFormatKind::Argb8888 => 4,
            PixelFormatKind::Rgba8888 => 4,
            PixelFormatKind::Abgr8888 => 4,
            PixelFormatKind::Bgra8888 => 4,
        }
    }

    /// How many bytes one pixel occupies.
    pub fn bytes_per_pixel(self) -> (bytes: u8)
        ensures
            bytes == self.spec_bytes_per_pixel(),
    {
        match self {
            PixelFormatKind::Index8 => 1,
            PixelFormatKind::Rgb332 => 1,
            PixelFormatKind::Rgb444 => 2,
            PixelFormatKind::Rgb555 => 2,
            PixelFormatKind::Rgb565 => 2,
            PixelFormatKind::Argb1555 => 2,
            PixelFormatKind::Argb4444 => 2,
            PixelFormatKind::Rgb888 => 4,
            PixelFormatKind::Argb8888 => 4,
            PixelFormatKind::Rgba8888 => 4,
            PixelFormatKind::Abgr8888 => 4,
            PixelFormatKind::Bgra8888 => 4,
        }
    }

    /// The packed-channel layout of this kind.  A palette-indexed kind
    /// has no channels: every channel is absent (loss `8`).
    pub open spec fn spec_layout(self) -> TrueColorLayout {
        match self {
            PixelFormatKind::Index8 => TrueColorLayout {
                red: ChannelLayout { loss: 8, shift: 0 },
                green: ChannelLayout { loss: 8, shift: 0 },
                blue: ChannelLayout { loss: 8, shift: 0 },
                alpha: ChannelLayout { loss: 8, shift: 0 },
            },
            PixelFormatKind::Rgb332 => TrueColorLayout {
                red: ChannelLayout { loss: 5, shift: 5 },
                green: ChannelLayout { loss: 5, shift: 2 },
                blue: ChannelLayout { loss: 6, shift: 0 },
                alpha: ChannelLayout { loss: 8, shift: 0 },
            },
            PixelFormatKind::Rgb444 => TrueColorLayout {
                red: ChannelLayout { loss: 4, shift: 8 },
                green: ChannelLayout { loss: 4, shift: 4 },
                blue: ChannelLayout { loss: 4, shift: 0 },
                alpha: ChannelLayout { loss: 8, shift: 0 },
            },
            PixelFormatKind::Rgb555 => TrueColorLayout {
                red: ChannelLayout { loss: 3, shift: 10 },
                green: ChannelLayout { loss: 3, shift: 5 },
                blue: ChannelLayout { loss: 3, shift: 0 },
                alpha: ChannelLayout { loss: 8, shift: 0 },
            },
            PixelFormatKind::Rgb565 => TrueColorLayout {
                red: ChannelLayout { loss: 3, shift: 11 },
                green: ChannelLayout { loss: 2, shift: 5 },
                blue: ChannelLayout { loss: 3, shift: 0 },
                alpha: ChannelLayout { loss: 8, shift: 0 },
            },
            PixelFormatKind::Argb1555 => TrueColorLayout {
                red: ChannelLayout { loss: 3, shift: 10 },
                green: ChannelLayout { loss: 3, shift: 5 },
                blue: ChannelLayout { loss: 3, shift: 0 },
                alpha: ChannelLayout { loss: 7, shift: 15 },
            },
            PixelFormatKind::Argb4444 => TrueColorLayout {
                red: ChannelLayout { loss: 4, shift: 8 },
                green: ChannelLayout { loss: 4, shift: 4 },
                blue: ChannelLayout { loss: 4, shift: 0 },
                alpha: ChannelLayout { loss: 4, shift: 12 },
            },
            PixelFormatKind::Rgb888 => TrueColorLayout {
                red: ChannelLayout { loss: 0, shift: 16 },
                green: ChannelLayout { loss: 0, shift: 8 },
                blue: ChannelLayout { loss: 0, shift: 0 },
                alpha: ChannelLayout { loss: 8, shift: 0 },
            },
            PixelFormatKind::Argb8888 => TrueColorLayout {
                red: ChannelLayout { loss: 0, shift: 16 },
                green: ChannelLayout { loss: 0, shift: 8 },
                blue: ChannelLayout { loss: 0, shift: 0 },
                alpha: ChannelLayout { loss: 0, shift: 24 },
            },
            PixelFormatKind::Rgba8888 => TrueColorLayout {
                red: ChannelLayout { loss: 0, shift: 24 },
                green: ChannelLayout { loss: 0, shift: 16 },
                blue: ChannelLayout { loss: 0, shift: 8 },
                alpha: ChannelLayout { loss: 0, shift: 0 },
            },
            PixelFormatKind::Abgr8888 => TrueColorLayout {
                red: ChannelLayout { loss: 0, shift: 0 },
                green: ChannelLayout { loss: 0, shift: 8 },
                blue: ChannelLayout { loss: 0, shift: 16 },
                alpha: ChannelLayout { loss: 0, shift: 24 },
            },
            PixelFormatKind::Bgra8888 => TrueColorLayout {
                red: ChannelLayout { loss: 0, shift: 8 },
                green: ChannelLayout { loss: 0, shift: 16 },
                blue: ChannelLayout { loss: 0, shift: 24 },
                alpha: ChannelLayout { loss: 0, shift: 0 },
            },
        }
    }

    /// The packed-channel layout of this kind.
    pub fn layout(self) -> (l: TrueColorLayout)
        ensures
            l == self.spec_layout(),
    {
        match self {
            PixelFormatKind::Index8 => TrueColorLayout {
                red: ChannelLayout { loss: 8, shift: 0 },
                green: ChannelLayout { loss: 8, shift: 0 },
                blue: ChannelLayout { loss: 8, shift: 0 },
                alpha: ChannelLayout { loss: 8, shift: 0 },
            },
            PixelFormatKind::Rgb332 => TrueColorLayout {
                red: ChannelLayout { loss: 5, shift: 5 },
                green: ChannelLayout { loss: 5, shift: 2 },
                blue: ChannelLayout { loss: 6, shift: 0 },
                alpha: ChannelLayout { loss: 8, shift: 0 },
            },
            PixelFormatKind::Rgb444 => TrueColorLayout {
                red: ChannelLayout { loss: 4, shift: 8 },
                green: ChannelLayout { loss: 4, shift: 4 },
                blue: ChannelLayout { loss: 4, shift: 0 },
                alpha: ChannelLayout { loss: 8, shift: 0 },
            },
            PixelFormatKind::Rgb555 => TrueColorLayout {
                red: ChannelLayout { loss: 3, shift: 10 },
                green: ChannelLayout { loss: 3, shift: 5 },
                blue: ChannelLayout { loss: 3, shift: 0 },
                alpha: ChannelLayout { loss: 8, shift: 0 },
            },
            PixelFormatKind::Rgb565 => TrueColorLayout {
                red: ChannelLayout { loss: 3, shift: 11 },
                green: ChannelLayout { loss: 2, shift: 5 },
                blue: ChannelLayout { loss: 3, shift: 0 },
                alpha: ChannelLayout { loss: 8, shift: 0 },
            },
            PixelFormatKind::Argb1555 => TrueColorLayout {
                red: ChannelLayout { loss: 3, shift: 10 },
                green: ChannelLayout { loss: 3, shift: 5 },
                blue: ChannelLayout { loss: 3, shift: 0 },
                alpha: ChannelLayout { loss: 7, shift: 15 },
            },
            PixelFormatKind::Argb4444 => TrueColorLayout {
                red: ChannelLayout { loss: 4, shift: 8 },
                green: ChannelLayout { loss: 4, shift: 4 },
                blue: ChannelLayout { loss: 4, shift: 0 },
                alpha: ChannelLayout { loss: 4, shift: 12 },
            },
            PixelFormatKind::Rgb888 => TrueColorLayout {
                red: ChannelLayout { loss: 0, shift: 16 },
                green: ChannelLayout { loss: 0, shift: 8 },
                blue: ChannelLayout { loss: 0, shift: 0 },
                alpha: ChannelLayout { loss: 8, shift: 0 },
            },
            PixelFormatKind::Argb8888 => TrueColorLayout {
                red: ChannelLayout { loss: 0, shift: 16 },
                green: ChannelLayout { loss: 0, shift: 8 },
                blue: ChannelLayout { loss: 0, shift: 0 },
                alpha: ChannelLayout { loss: 0, shift: 24 },
            },
            PixelFormatKind::Rgba8888 => TrueColorLayout {
                red: ChannelLayout { loss: 0, shift: 24 },
                green: ChannelLayout { loss: 0, shift: 16 },
                blue: ChannelLayout { loss: 0, shift: 8 },
                alpha: ChannelLayout { loss: 0, shift: 0 },
            },
            PixelFormatKind::Abgr8888 => TrueColorLayout {
                red: ChannelLayout { loss: 0, shift: 0 },
                green: ChannelLayout { loss: 0, shift: 8 },
                blue: ChannelLayout { loss: 0, shift: 16 },
                alpha: ChannelLayout { loss: 0, shift: 24 },
            },
            PixelFormatKind::Bgra8888 => TrueColorLayout {
                red: ChannelLayout { loss: 0, shift: 8 },
                green: ChannelLayout { loss: 0, shift: 16 },
                blue: ChannelLayout { loss: 0, shift: 24 },
                alpha: ChannelLayout { loss: 0, shift: 0 },
            },
        }
    }
}

/// Every kind's layout is well formed: shifts stay inside the pixel.
pub proof fn lemma_layout_wf(kind: PixelFormatKind)
    ensures
        spec_layout_wf(kind.spec_layout()),
{
}

/// Round trip: decoding a kind's own tag code recovers the kind.
pub proof fn lemma_kind_tag_round_trip(kind: PixelFormatKind)
    ensures
        PixelFormatKind::spec_from_raw(kind.spec_tag()) == Some(kind),
{
}

/// The tag codes are injective: no two kinds share one.
pub proof fn lemma_kind_tag_injective(k1: PixelFormatKind, k2: PixelFormatKind)
    requires
        k1.spec_tag() == k2.spec_tag(),
    ensures
        k1 == k2,
{
    lemma_kind_tag_round_trip(k1);
    lemma_kind_tag_round_trip(k2);
}

} // verus!
