//! Pixel-format descriptors and pixel/color conversions.
//!
//! A descriptor is allocated by kind; the native allocator answers with
//! a nonzero handle (plus a palette handle for palette-indexed kinds) or
//! with the `0` sentinel and a last-error message, where an out-of-memory
//! failure is told apart from other failures.  The descriptor exposes the
//! channel layout and converts between packed pixels and channel values;
//! the conversions are pure and fully specified.

use vstd::prelude::*;

use crate::SdlError;
use crate::SdlResult;
use crate::classify_alloc_failure;
use crate::color::Rgb;
use crate::color::Rgba;
use crate::native::CallLog;
use crate::native::NativeCall;

use self::kind::ChannelLayout;
use self::kind::PixelFormatKind;
use self::kind::lemma_layout_wf;

pub mod kind;

verus! {

/// One channel of a packed true-color pixel: its mask in the pixel, how
/// many of its eight bits are lost, and how far it is shifted.
#[derive(Debug, Clone, Copy, PartialEq, Eq, Structural)]
pub struct PixelComponent {
    pub mask: u32,
    pub loss: u8,
    pub shift: u8,
}

/// What a pixel of a format means: an index into the format's palette,
/// or four packed channels.
#[derive(Debug, Clone, Copy, PartialEq, Eq, Structural)]
pub enum PixelComponents {
    /// The format is palette-indexed; `palette` is the handle of the
    /// owning palette resource, not a copy of it.
    PaletteIndex { palette: u64 },
    /// The format is true-color, with one descriptor per channel.
    TrueColor {
        red: PixelComponent,
        green: PixelComponent,
        blue: PixelComponent,
        alpha: PixelComponent,
    },
}

/// The mask of a channel with the given bit loss, at the given shift.
pub open spec fn spec_channel_mask(loss: u8, shift: u8) -> u32 {
    (0xFFu32 >> (loss as u32)) << (shift as u32)
}

/// The channel descriptor that belongs to a layout entry.
pub open spec fn spec_component(c: ChannelLayout) -> PixelComponent {
    PixelComponent { mask: spec_channel_mask(c.loss, c.shift), loss: c.loss, shift: c.shift }
}

/// One channel value packed into its place in a pixel: the low `loss`
/// bits are dropped and the kept bits move to the channel's shift.
pub open spec fn spec_pack_channel(v: u8, c: ChannelLayout) -> u32 {
    ((v as u32) >> (c.loss as u32)) << (c.shift as u32)
}

/// One channel value read back out of a pixel: the channel's bits are
/// selected, moved down, and widened back to eight bits with the lost
/// low bits cleared.
pub open spec fn spec_unpack_channel(pixel: u32, c: ChannelLayout) -> u8 {
    ((((pixel & spec_channel_mask(c.loss, c.shift)) >> (c.shift as u32)) << (c.loss as u32))
        & 0xFF) as u8
}

/// The pixel a true-color kind maps an opaque color to: the three color
/// channels packed, with the alpha bits fully set.
pub open spec fn spec_pixel_of_rgb(kind: PixelFormatKind, color: Rgb) -> u32 {
    ((spec_pack_channel(color.r, kind.spec_layout().red) | spec_pack_channel(
        color.g,
        kind.spec_layout().green,
    )) | spec_pack_channel(color.b, kind.spec_layout().blue)) | spec_channel_mask(
        kind.spec_layout().alpha.loss,
        kind.spec_layout().alpha.shift,
    )
}

/// The pixel a true-color kind maps a color with alpha to: all four
/// channels packed.
pub open spec fn spec_pixel_of_rgba(kind: PixelFormatKind, color: Rgba) -> u32 {
    ((spec_pack_channel(color.r, kind.spec_layout().red) | spec_pack_channel(
        color.g,
        kind.spec_layout().green,
    )) | spec_pack_channel(color.b, kind.spec_layout().blue)) | spec_pack_channel(
        color.a,
        kind.spec_layout().alpha,
    )
}

/// The color a true-color kind reads out of a pixel.
pub open spec fn spec_rgb_of_pixel(kind: PixelFormatKind, pixel: u32) -> Rgb {
    Rgb {
        r: spec_unpack_channel(pixel, kind.spec_layout().red),
        g: spec_unpack_channel(pixel, kind.spec_layout().green),
        b: spec_unpack_channel(pixel, kind.spec_layout().blue),
    }
}

/// The color with alpha a true-color kind reads out of a pixel.  A kind
/// without an alpha channel reads as fully opaque.
pub open spec fn spec_rgba_of_pixel(kind: PixelFormatKind, pixel: u32) -> Rgba {
    Rgba {
        r: spec_unpack_channel(pixel, kind.spec_layout().red),
        g: spec_unpack_channel(pixel, kind.spec_layout().green),
        b: spec_unpack_channel(pixel, kind.spec_layout().blue),
        a: if kind.spec_layout().alpha.loss == 8 {
            255
        } else {
            spec_unpack_channel(pixel, kind.spec_layout().alpha)
        },
    }
}

/// The squared distance between two palette colors.
pub open spec fn spec_color_distance(a: Rgb, b: Rgb) -> int {
    (a.r - b.r) * (a.r - b.r) + (a.g - b.g) * (a.g - b.g) + (a.b - b.b) * (a.b - b.b)
}

/// `idx` points at the first palette entry nearest to `color`.
pub open spec fn spec_is_first_nearest(palette: Seq<Rgb>, color: Rgb, idx: int) -> bool {
    &&& 0 <= idx < palette.len()
    &&& forall|j: int|
        0 <= j < palette.len() ==> spec_color_distance(palette[idx], color)
            <= spec_color_distance(#[trigger] palette[j], color)
    &&& forall|j: int|
        0 <= j < idx ==> spec_color_distance(#[trigger] palette[j], color) > spec_color_distance(
            palette[idx],
            color,
        )
}

/// A freshly allocated palette: 256 opaque white entries.
pub open spec fn spec_initial_palette() -> Seq<Rgb> {
    Seq::new(256, |i: int| Rgb { r: 255, g: 255, b: 255 })
}

/// The all-ones mask of a declared bit depth.
pub open spec fn spec_depth_mask(bits: u8) -> u32 {
    if bits == 8 {
        0xFF
    } else if bits == 12 {
        0xFFF
    } else if bits == 15 {
        0x7FFF
    } else if bits == 16 {
        0xFFFF
    } else if bits == 24 {
        0xFFFFFF
    } else if bits == 32 {
        0xFFFFFFFF
    } else {
        0
    }
}

/// What the native descriptor allocation returned.
pub struct AllocReport {
    /// The descriptor handle; `0` is the failure sentinel.
    pub handle: u64,
    /// The handle of the palette allocated alongside a palette-indexed
    /// descriptor; `0` for true-color kinds.
    pub palette: u64,
    /// The last-error message, meaningful when the allocation failed.
    pub error: String,
}

/// An owned pixel-format descriptor.
pub struct PixelFormat {
    kind: PixelFormatKind,
    handle: u64,
    palette_handle: u64,
    palette_colors: Vec<Rgb>,
}

impl PixelFormat {
    /// The kind this descriptor was allocated for.
    pub closed spec fn spec_kind(&self) -> PixelFormatKind {
        self.kind
    }

    /// The raw descriptor handle this wrapper owns.
    pub closed spec fn raw_handle(&self) -> u64 {
        self.handle
    }

    /// The handle of the owned palette; `0` for true-color kinds.
    pub closed spec fn spec_palette_handle(&self) -> u64 {
        self.palette_handle
    }

    /// The colors of the owned palette; empty for true-color kinds.
    pub closed spec fn spec_palette(&self) -> Seq<Rgb> {
        self.palette_colors@
    }

    /// The ownership discipline of a well-formed descriptor: a live
    /// handle, and a live 256-entry palette exactly for palette-indexed
    /// kinds.
    pub open spec fn wf(&self) -> bool {
        &&& self.raw_handle() != 0
        &&& self.spec_kind().spec_is_palette() ==> self.spec_palette_handle() != 0
            && self.spec_palette().len() == 256
        &&& !self.spec_kind().spec_is_palette() ==> self.spec_palette_handle() == 0
            && self.spec_palette().len() == 0
    }

    /// What [`PixelFormat::components`] answers for this descriptor.
    pub open spec fn spec_components(&self) -> PixelComponents {
        if self.spec_kind().spec_is_palette() {
            PixelComponents::PaletteIndex { palette: self.spec_palette_handle() }
        } else {
            PixelComponents::TrueColor {
                red: spec_component(self.spec_kind().spec_layout().red),
                green: spec_component(self.spec_kind().spec_layout().green),
                blue: spec_component(self.spec_kind().spec_layout().blue),
                alpha: spec_component(self.spec_kind().spec_layout().alpha),
            }
        }
    }

    /// Allocates a descriptor for `kind`.
    ///
    /// A zero handle from the native allocator is always an error: the
    /// out-of-memory last-error text becomes [`SdlError::OutOfMemory`]
    /// and any other text a generic failure.  On success the wrapper
    /// owns the handle; a palette-indexed descriptor starts with the
    /// freshly allocated all-white palette, whose handle the native
    /// allocator reports alongside the descriptor.
    pub fn new(kind: PixelFormatKind, report: AllocReport) -> (r: SdlResult<PixelFormat>)
        requires
            report.handle != 0 && kind.spec_is_palette() ==> report.palette != 0,
            report.handle != 0 && !kind.spec_is_palette() ==> report.palette == 0,
        ensures
            report.handle == 0 && report.error@ == "Out of memory"@ ==> r == Err::<
                PixelFormat,
                SdlError,
            >(SdlError::OutOfMemory),
            report.handle == 0 && report.error@ != "Out of memory"@ ==> r == Err::<
                PixelFormat,
                SdlError,
            >((SdlError::Others { msg: report.error })),
            report.handle != 0 ==> (r matches Ok(f) && f.wf() && f.spec_kind() == kind
                && f.raw_handle() == report.handle && f.spec_palette_handle() == report.palette
                && f.spec_palette() == if kind.spec_is_palette() {
                spec_initial_palette()
            } else {
                Seq::<Rgb>::empty()
            }),
    {
        if report.handle == 0 {
            return Err(classify_alloc_failure(report.error));
        }
        let mut palette_colors: Vec<Rgb> = Vec::new();
        if kind.is_palette() {
            let mut i: usize = 0;
            while i < 256
                invariant
                    i <= 256,
                    palette_colors@.len() == i,
                    forall|j: int|
                        0 <= j < i ==> palette_colors@[j] == (Rgb { r: 255, g: 255, b: 255 }),
                decreases 256 - i,
            {
                palette_colors.push(Rgb { r: 255, g: 255, b: 255 });
                i = i + 1;
            }
            proof {
                assert(palette_colors@ =~= spec_initial_palette());
            }
        }
        Ok(
            PixelFormat {
                kind,
                handle: report.handle,
                palette_handle: report.palette,
                palette_colors,
            },
        )
    }

    /// The kind this descriptor was allocated for.
    pub fn kind(&self) -> (kind: PixelFormatKind)
        ensures
            kind == self.spec_kind(),
    {
        self.kind
    }

    /// The declared bit depth of one pixel.
    pub fn bits_per_pixel(&self) -> (bits: u8)
        ensures
            bits == self.spec_kind().spec_bits_per_pixel(),
    {
        self.kind.bits_per_pixel()
    }

    /// How many bytes one pixel occupies.
    pub fn bytes_per_pixel(&self) -> (bytes: u8)
        ensures
            bytes == self.spec_kind().spec_bytes_per_pixel(),
    {
        self.kind.bytes_per_pixel()
    }

    /// What a pixel of this format means: the palette variant for a
    /// palette-indexed descriptor, with the handle of the owning palette
    /// resource; the four channel descriptors for a true-color one.
    pub fn components(&self) -> (c: PixelComponents)
        ensures
            c == self.spec_components(),
    {
        if self.kind.is_palette() {
            PixelComponents::PaletteIndex { palette: self.palette_handle }
        } else {
            proof {
                lemma_layout_wf(self.kind);
            }
            let l = self.kind.layout();
            PixelComponents::TrueColor {
                red: component_of(l.red),
                green: component_of(l.green),
                blue: component_of(l.blue),
                alpha: component_of(l.alpha),
            }
        }
    }

    /// Maps an opaque color to a pixel: the first nearest palette entry
    /// for a palette-indexed descriptor, the packed channels with alpha
    /// fully set for a true-color one.
    pub fn pixel_by_rgb(&self, color: Rgb) -> (pixel: u32)
        requires
            self.wf(),
        ensures
            !self.spec_kind().spec_is_palette() ==> pixel == spec_pixel_of_rgb(
                self.spec_kind(),
                color,
            ),
            self.spec_kind().spec_is_palette() ==> spec_is_first_nearest(
                self.spec_palette(),
                color,
                pixel as int,
            ),
    {
        if self.kind.is_palette() {
            let idx = nearest_palette_index(&self.palette_colors, color);
            idx as u32
        } else {
            proof {
                lemma_layout_wf(self.kind);
            }
            let l = self.kind.layout();
            ((pack_channel(color.r, l.red) | pack_channel(color.g, l.green)) | pack_channel(
                color.b,
                l.blue,
            )) | channel_mask(l.alpha)
        }
    }

    /// Maps a color with alpha to a pixel: the first palette entry
    /// nearest to its color part for a palette-indexed descriptor, the
    /// four packed channels for a true-color one.
    pub fn pixel_by_rgba(&self, color: Rgba) -> (pixel: u32)
        requires
            self.wf(),
        ensures
            !self.spec_kind().spec_is_palette() ==> pixel == spec_pixel_of_rgba(
                self.spec_kind(),
                color,
            ),
            self.spec_kind().spec_is_palette() ==> spec_is_first_nearest(
                self.spec_palette(),
                (Rgb { r: color.r, g: color.g, b: color.b }),
                pixel as int,
            ),
    {
        if self.kind.is_palette() {
            let idx = nearest_palette_index(
                &self.palette_colors,
                Rgb { r: color.r, g: color.g, b: color.b },
            );
            idx as u32
        } else {
            proof {
                lemma_layout_wf(self.kind);
            }
            let l = self.kind.layout();
            ((pack_channel(color.r, l.red) | pack_channel(color.g, l.green)) | pack_channel(
                color.b,
                l.blue,
            )) | pack_channel(color.a, l.alpha)
        }
    }

    /// Reads the opaque color a pixel stands for: the palette entry at
    /// that index (black beyond the palette) for a palette-indexed
    /// descriptor, the unpacked channels for a true-color one.
    pub fn rgb_from_pixel(&self, pixel: u32) -> (color: Rgb)
        ensures
            !self.spec_kind().spec_is_palette() ==> color == spec_rgb_of_pixel(
                self.spec_kind(),
                pixel,
            ),
            self.spec_kind().spec_is_palette() && pixel < self.spec_palette().len() ==> color
                == self.spec_palette()[pixel as int],
            self.spec_kind().spec_is_palette() && pixel >= self.spec_palette().len() ==> color
                == (Rgb { r: 0, g: 0, b: 0 }),
    {
        if self.kind.is_palette() {
            if (pixel as usize) < self.palette_colors.len() {
                self.palette_colors[pixel as usize]
            } else {
                Rgb { r: 0, g: 0, b: 0 }
            }
        } else {
            proof {
                lemma_layout_wf(self.kind);
            }
            let l = self.kind.layout();
            Rgb {
                r: unpack_channel(pixel, l.red),
                g: unpack_channel(pixel, l.green),
                b: unpack_channel(pixel, l.blue),
            }
        }
    }

    /// Reads the color with alpha a pixel stands for.  Palette entries
    /// and formats without an alpha channel read as fully opaque.
    pub fn rgba_from_pixel(&self, pixel: u32) -> (color: Rgba)
        ensures
            !self.spec_kind().spec_is_palette() ==> color == spec_rgba_of_pixel(
                self.spec_kind(),
                pixel,
            ),
            self.spec_kind().spec_is_palette() && pixel < self.spec_palette().len() ==> color
                == (Rgba {
                r: self.spec_palette()[pixel as int].r,
                g: self.spec_palette()[pixel as int].g,
                b: self.spec_palette()[pixel as int].b,
                a: 255,
            }),
            self.spec_kind().spec_is_palette() && pixel >= self.spec_palette().len() ==> color
                == (Rgba { r: 0, g: 0, b: 0, a: 255 }),
    {
        if self.kind.is_palette() {
            let rgb = if (pixel as usize) < self.palette_colors.len() {
                self.palette_colors[pixel as usize]
            } else {
                Rgb { r: 0, g: 0, b: 0 }
            };
            Rgba { r: rgb.r, g: rgb.g, b: rgb.b, a: 255 }
        } else {
            proof {
                lemma_layout_wf(self.kind);
            }
            let l = self.kind.layout();
            let a = if l.alpha.loss == 8 {
                255
            } else {
                unpack_channel(pixel, l.alpha)
            };
            Rgba {
                r: unpack_channel(pixel, l.red),
                g: unpack_channel(pixel, l.green),
                b: unpack_channel(pixel, l.blue),
                a,
            }
        }
    }

    /// Releases the owned descriptor handle: the one free call this
    /// wrapper is responsible for is recorded (the native layer retires
    /// the attached palette with it), and the wrapper is consumed.
    pub fn close(self, log: &mut CallLog)
        ensures
            final(log)@ == old(log)@.push(NativeCall::Release(self.raw_handle())),
    {
        log.release(self.handle);
    }
}

/// The channel descriptor of a layout entry, with the mask computed
/// from loss and shift.
fn component_of(c: ChannelLayout) -> (comp: PixelComponent)
    requires
        c.loss <= 8,
        c.shift <= 24,
    ensures
        comp == spec_component(c),
{
    PixelComponent {
        mask: (0xFFu32 >> (c.loss as u32)) << (c.shift as u32),
        loss: c.loss,
        shift: c.shift,
    }
}

/// The mask of a layout entry's channel.
fn channel_mask(c: ChannelLayout) -> (m: u32)
    requires
        c.loss <= 8,
        c.shift <= 24,
    ensures
        m == spec_channel_mask(c.loss, c.shift),
{
    (0xFFu32 >> (c.loss as u32)) << (c.shift as u32)
}

/// Packs one channel value into its place in a pixel.
fn pack_channel(v: u8, c: ChannelLayout) -> (p: u32)
    requires
        c.loss <= 8,
        c.shift <= 24,
    ensures
        p == spec_pack_channel(v, c),
{
    ((v as u32) >> (c.loss as u32)) << (c.shift as u32)
}

/// Reads one channel value back out of a pixel.
fn unpack_channel(pixel: u32, c: ChannelLayout) -> (v: u8)
    requires
        c.loss <= 8,
        c.shift <= 24,
    ensures
        v == spec_unpack_channel(pixel, c),
{
    let m = channel_mask(c);
    let x = ((pixel & m) >> (c.shift as u32)) << (c.loss as u32);
    proof {
        lemma_low_byte_fits(x);
    }
    (x & 0xFF) as u8
}

/// Masking to the low byte leaves a value an octet can hold.
proof fn lemma_low_byte_fits(x: u32)
    by (bit_vector)
    ensures
        x & 0xFF < 256,
{
}

/// Squaring does not care about the sign of a difference.
proof fn lemma_square_symmetric(p: int, q: int)
    by (nonlinear_arith)
    ensures
        (p - q) * (p - q) == (q - p) * (q - p),
{
}

/// The squared distance between two palette colors.
fn color_distance(a: Rgb, b: Rgb) -> (d: u32)
    ensures
        d == spec_color_distance(a, b),
{
    let dr = channel_diff(a.r, b.r);
    let dg = channel_diff(a.g, b.g);
    let db = channel_diff(a.b, b.b);
    proof {
        lemma_square_symmetric(a.r as int, b.r as int);
        lemma_square_symmetric(a.g as int, b.g as int);
        lemma_square_symmetric(a.b as int, b.b as int);
        assert((dr as u32) * (dr as u32) <= 65025 && (dg as u32) * (dg as u32) <= 65025 && (
        db as u32) * (db as u32) <= 65025) by (nonlinear_arith)
            requires
                dr <= 255 && dg <= 255 && db <= 255,
        ;
    }
    (dr as u32) * (dr as u32) + (dg as u32) * (dg as u32) + (db as u32) * (db as u32)
}

/// The absolute difference of two channel values.
fn channel_diff(x: u8, y: u8) -> (d: u8)
    ensures
        x >= y ==> d == x - y,
        x < y ==> d == y - x,
{
    if x >= y {
        x - y
    } else {
        y - x
    }
}

/// The first palette entry nearest to `color`, by squared distance.
fn nearest_palette_index(palette: &Vec<Rgb>, color: Rgb) -> (idx: usize)
    requires
        palette@.len() > 0,
    ensures
        spec_is_first_nearest(palette@, color, idx as int),
{
    let mut best: usize = 0;
    let mut best_distance = color_distance(palette[0], color);
    let mut i: usize = 1;
    while i < palette.len()
        invariant
            palette@.len() > 0,
            best < i,
            i <= palette@.len(),
            best_distance == spec_color_distance(palette@[best as int], color),
            forall|j: int|
                0 <= j < i ==> spec_color_distance(#[trigger] palette@[j], color)
                    >= best_distance,
            forall|j: int|
                0 <= j < best ==> spec_color_distance(#[trigger] palette@[j], color)
                    > best_distance,
        decreases palette@.len() - i,
    {
        let d = color_distance(palette[i], color);
        if d < best_distance {
            best = i;
            best_distance = d;
        }
        i = i + 1;
    }
    best
}

/// Mapping a color and reading it back clears exactly the low `loss`
/// bits of each channel; nothing else changes.
pub proof fn lemma_rgb_round_trip(kind: PixelFormatKind, color: Rgb)
    requires
        !kind.spec_is_palette(),
    ensures
        spec_rgb_of_pixel(kind, spec_pixel_of_rgb(kind, color)) == (Rgb {
            r: (color.r >> kind.spec_layout().red.loss) << kind.spec_layout().red.loss,
            g: (color.g >> kind.spec_layout().green.loss) << kind.spec_layout().green.loss,
            b: (color.b >> kind.spec_layout().blue.loss) << kind.spec_layout().blue.loss,
        }),
{
    let r = color.r;
    let g = color.g;
    let b = color.b;
    assert((((((((((((r as u32) >> 5u32) << 5u32) | (((g as u32) >> 5u32) << 2u32)) | (((b as u32) >> 6u32) << 0u32)) | ((0xFFu32 >> 8u32) << 0u32)) & ((0xFFu32 >> 5u32) << 5u32)) >> 5u32) << 5u32) & 0xFF) as u8) == (r >> 5u8) << 5u8 &&
        (((((((((((r as u32) >> 5u32) << 5u32) | (((g as u32) >> 5u32) << 2u32)) | (((b as u32) >> 6u32) << 0u32)) | ((0xFFu32 >> 8u32) << 0u32)) & ((0xFFu32 >> 5u32) << 2u32)) >> 2u32) << 5u32) & 0xFF) as u8) == (g >> 5u8) << 5u8 &&
        (((((((((((r as u32) >> 5u32) << 5u32) | (((g as u32) >> 5u32) << 2u32)) | (((b as u32) >> 6u32) << 0u32)) | ((0xFFu32 >> 8u32) << 0u32)) & ((0xFFu32 >> 6u32) << 0u32)) >> 0u32) << 6u32) & 0xFF) as u8) == (b >> 6u8) << 6u8 &&
        (((((((((((r as u32) >> 4u32) << 8u32) | (((g as u32) >> 4u32) << 4u32)) | (((b as u32) >> 4u32) << 0u32)) | ((0xFFu32 >> 8u32) << 0u32)) & ((0xFFu32 >> 4u32) << 8u32)) >> 8u32) << 4u32) & 0xFF) as u8) == (r >> 4u8) << 4u8 &&
        (((((((((((r as u32) >> 4u32) << 8u32) | (((g as u32) >> 4u32) << 4u32)) | (((b as u32) >> 4u32) << 0u32)) | ((0xFFu32 >> 8u32) << 0u32)) & ((0xFFu32 >> 4u32) << 4u32)) >> 4u32) << 4u32) & 0xFF) as u8) == (g >> 4u8) << 4u8 &&
        (((((((((((r as u32) >> 4u32) << 8u32) | (((g as u32) >> 4u32) << 4u32)) | (((b as u32) >> 4u32) << 0u32)) | ((0xFFu32 >> 8u32) << 0u32)) & ((0xFFu32 >> 4u32) << 0u32)) >> 0u32) << 4u32) & 0xFF) as u8) == (b >> 4u8) << 4u8 &&
        (((((((((((r as u32) >> 3u32) << 10u32) | (((g as u32) >> 3u32) << 5u32)) | (((b as u32) >> 3u32) << 0u32)) | ((0xFFu32 >> 8u32) << 0u32)) & ((0xFFu32 >> 3u32) << 10u32)) >> 10u32) << 3u32) & 0xFF) as u8) == (r >> 3u8) << 3u8 &&
        (((((((((((r as u32) >> 3u32) << 10u32) | (((g as u32) >> 3u32) << 5u32)) | (((b as u32) >> 3u32) << 0u32)) | ((0xFFu32 >> 8u32) << 0u32)) & ((0xFFu32 >> 3u32) << 5u32)) >> 5u32) << 3u32) & 0xFF) as u8) == (g >> 3u8) << 3u8 &&
        (((((((((((r as u32) >> 3u32) << 10u32) | (((g as u32) >> 3u32) << 5u32)) | (((b as u32) >> 3u32) << 0u32)) | ((0xFFu32 >> 8u32) << 0u32)) & ((0xFFu32 >> 3u32) << 0u32)) >> 0u32) << 3u32) & 0xFF) as u8) == (b >> 3u8) << 3u8 &&
        (((((((((((r as u32) >> 3u32) << 11u32) | (((g as u32) >> 2u32) << 5u32)) | (((b as u32) >> 3u32) << 0u32)) | ((0xFFu32 >> 8u32) << 0u32)) & ((0xFFu32 >> 3u32) << 11u32)) >> 11u32) << 3u32) & 0xFF) as u8) == (r >> 3u8) << 3u8 &&
        (((((((((((r as u32) >> 3u32) << 11u32) | (((g as u32) >> 2u32) << 5u32)) | (((b as u32) >> 3u32) << 0u32)) | ((0xFFu32 >> 8u32) << 0u32)) & ((0xFFu32 >> 2u32) << 5u32)) >> 5u32) << 2u32) & 0xFF) as u8) == (g >> 2u8) << 2u8 &&
        (((((((((((r as u32) >> 3u32) << 11u32) | (((g as u32) >> 2u32) << 5u32)) | (((b as u32) >> 3u32) << 0u32)) | ((0xFFu32 >> 8u32) << 0u32)) & ((0xFFu32 >> 3u32) << 0u32)) >> 0u32) << 3u32) & 0xFF) as u8) == (b >> 3u8) << 3u8 &&
        (((((((((((r as u32) >> 3u32) << 10u32) | (((g as u32) >> 3u32) << 5u32)) | (((b as u32) >> 3u32) << 0u32)) | ((0xFFu32 >> 7u32) << 15u32)) & ((0xFFu32 >> 3u32) << 10u32)) >> 10u32) << 3u32) & 0xFF) as u8) == (r >> 3u8) << 3u8 &&
        (((((((((((r as u32) >> 3u32) << 10u32) | (((g as u32) >> 3u32) << 5u32)) | (((b as u32) >> 3u32) << 0u32)) | ((0xFFu32 >> 7u32) << 15u32)) & ((0xFFu32 >> 3u32) << 5u32)) >> 5u32) << 3u32) & 0xFF) as u8) == (g >> 3u8) << 3u8 &&
        (((((((((((r as u32) >> 3u32) << 10u32) | (((g as u32) >> 3u32) << 5u32)) | (((b as u32) >> 3u32) << 0u32)) | ((0xFFu32 >> 7u32) << 15u32)) & ((0xFFu32 >> 3u32) << 0u32)) >> 0u32) << 3u32) & 0xFF) as u8) == (b >> 3u8) << 3u8 &&
        (((((((((((r as u32) >> 4u32) << 8u32) | (((g as u32) >> 4u32) << 4u32)) | (((b as u32) >> 4u32) << 0u32)) | ((0xFFu32 >> 4u32) << 12u32)) & ((0xFFu32 >> 4u32) << 8u32)) >> 8u32) << 4u32) & 0xFF) as u8) == (r >> 4u8) << 4u8 &&
        (((((((((((r as u32) >> 4u32) << 8u32) | (((g as u32) >> 4u32) << 4u32)) | (((b as u32) >> 4u32) << 0u32)) | ((0xFFu32 >> 4u32) << 12u32)) & ((0xFFu32 >> 4u32) << 4u32)) >> 4u32) << 4u32) & 0xFF) as u8) == (g >> 4u8) << 4u8 &&
        (((((((((((r as u32) >> 4u32) << 8u32) | (((g as u32) >> 4u32) << 4u32)) | (((b as u32) >> 4u32) << 0u32)) | ((0xFFu32 >> 4u32) << 12u32)) & ((0xFFu32 >> 4u32) << 0u32)) >> 0u32) << 4u32) & 0xFF) as u8) == (b >> 4u8) << 4u8 &&
        (((((((((((r as u32) >> 0u32) << 16u32) | (((g as u32) >> 0u32) << 8u32)) | (((b as u32) >> 0u32) << 0u32)) | ((0xFFu32 >> 8u32) << 0u32)) & ((0xFFu32 >> 0u32) << 16u32)) >> 16u32) << 0u32) & 0xFF) as u8) == (r >> 0u8) << 0u8 &&
        (((((((((((r as u32) >> 0u32) << 16u32) | (((g as u32) >> 0u32) << 8u32)) | (((b as u32) >> 0u32) << 0u32)) | ((0xFFu32 >> 8u32) << 0u32)) & ((0xFFu32 >> 0u32) << 8u32)) >> 8u32) << 0u32) & 0xFF) as u8) == (g >> 0u8) << 0u8 &&
        (((((((((((r as u32) >> 0u32) << 16u32) | (((g as u32) >> 0u32) << 8u32)) | (((b as u32) >> 0u32) << 0u32)) | ((0xFFu32 >> 8u32) << 0u32)) & ((0xFFu32 >> 0u32) << 0u32)) >> 0u32) << 0u32) & 0xFF) as u8) == (b >> 0u8) << 0u8 &&
        (((((((((((r as u32) >> 0u32) << 16u32) | (((g as u32) >> 0u32) << 8u32)) | (((b as u32) >> 0u32) << 0u32)) | ((0xFFu32 >> 0u32) << 24u32)) & ((0xFFu32 >> 0u32) << 16u32)) >> 16u32) << 0u32) & 0xFF) as u8) == (r >> 0u8) << 0u8 &&
        (((((((((((r as u32) >> 0u32) << 16u32) | (((g as u32) >> 0u32) << 8u32)) | (((b as u32) >> 0u32) << 0u32)) | ((0xFFu32 >> 0u32) << 24u32)) & ((0xFFu32 >> 0u32) << 8u32)) >> 8u32) << 0u32) & 0xFF) as u8) == (g >> 0u8) << 0u8 &&
        (((((((((((r as u32) >> 0u32) << 16u32) | (((g as u32) >> 0u32) << 8u32)) | (((b as u32) >> 0u32) << 0u32)) | ((0xFFu32 >> 0u32) << 24u32)) & ((0xFFu32 >> 0u32) << 0u32)) >> 0u32) << 0u32) & 0xFF) as u8) == (b >> 0u8) << 0u8 &&
        (((((((((((r as u32) >> 0u32) << 24u32) | (((g as u32) >> 0u32) << 16u32)) | (((b as u32) >> 0u32) << 8u32)) | ((0xFFu32 >> 0u32) << 0u32)) & ((0xFFu32 >> 0u32) << 24u32)) >> 24u32) << 0u32) & 0xFF) as u8) == (r >> 0u8) << 0u8 &&
        (((((((((((r as u32) >> 0u32) << 24u32) | (((g as u32) >> 0u32) << 16u32)) | (((b as u32) >> 0u32) << 8u32)) | ((0xFFu32 >> 0u32) << 0u32)) & ((0xFFu32 >> 0u32) << 16u32)) >> 16u32) << 0u32) & 0xFF) as u8) == (g >> 0u8) << 0u8 &&
        (((((((((((r as u32) >> 0u32) << 24u32) | (((g as u32) >> 0u32) << 16u32)) | (((b as u32) >> 0u32) << 8u32)) | ((0xFFu32 >> 0u32) << 0u32)) & ((0xFFu32 >> 0u32) << 8u32)) >> 8u32) << 0u32) & 0xFF) as u8) == (b >> 0u8) << 0u8 &&
        (((((((((((r as u32) >> 0u32) << 0u32) | (((g as u32) >> 0u32) << 8u32)) | (((b as u32) >> 0u32) << 16u32)) | ((0xFFu32 >> 0u32) << 24u32)) & ((0xFFu32 >> 0u32) << 0u32)) >> 0u32) << 0u32) & 0xFF) as u8) == (r >> 0u8) << 0u8 &&
        (((((((((((r as u32) >> 0u32) << 0u32) | (((g as u32) >> 0u32) << 8u32)) | (((b as u32) >> 0u32) << 16u32)) | ((0xFFu32 >> 0u32) << 24u32)) & ((0xFFu32 >> 0u32) << 8u32)) >> 8u32) << 0u32) & 0xFF) as u8) == (g >> 0u8) << 0u8 &&
        (((((((((((r as u32) >> 0u32) << 0u32) | (((g as u32) >> 0u32) << 8u32)) | (((b as u32) >> 0u32) << 16u32)) | ((0xFFu32 >> 0u32) << 24u32)) & ((0xFFu32 >> 0u32) << 16u32)) >> 16u32) << 0u32) & 0xFF) as u8) == (b >> 0u8) << 0u8 &&
        (((((((((((r as u32) >> 0u32) << 8u32) | (((g as u32) >> 0u32) << 16u32)) | (((b as u32) >> 0u32) << 24u32)) | ((0xFFu32 >> 0u32) << 0u32)) & ((0xFFu32 >> 0u32) << 8u32)) >> 8u32) << 0u32) & 0xFF) as u8) == (r >> 0u8) << 0u8 &&
        (((((((((((r as u32) >> 0u32) << 8u32) | (((g as u32) >> 0u32) << 16u32)) | (((b as u32) >> 0u32) << 24u32)) | ((0xFFu32 >> 0u32) << 0u32)) & ((0xFFu32 >> 0u32) << 16u32)) >> 16u32) << 0u32) & 0xFF) as u8) == (g >> 0u8) << 0u8 &&
        (((((((((((r as u32) >> 0u32) << 8u32) | (((g as u32) >> 0u32) << 16u32)) | (((b as u32) >> 0u32) << 24u32)) | ((0xFFu32 >> 0u32) << 0u32)) & ((0xFFu32 >> 0u32) << 24u32)) >> 24u32) << 0u32) & 0xFF) as u8) == (b >> 0u8) << 0u8) by (bit_vector);
}

/// Mapping a color with alpha and reading it back clears exactly the
/// low `loss` bits of each channel; a kind without an alpha channel
/// reads back fully opaque.
pub proof fn lemma_rgba_round_trip(kind: PixelFormatKind, color: Rgba)
    requires
        !kind.spec_is_palette(),
    ensures
        spec_rgba_of_pixel(kind, spec_pixel_of_rgba(kind, color)) == (Rgba {
            r: (color.r >> kind.spec_layout().red.loss) << kind.spec_layout().red.loss,
            g: (color.g >> kind.spec_layout().green.loss) << kind.spec_layout().green.loss,
            b: (color.b >> kind.spec_layout().blue.loss) << kind.spec_layout().blue.loss,
            a: if kind.spec_layout().alpha.loss == 8 {
                255
            } else {
                (color.a >> kind.spec_layout().alpha.loss) << kind.spec_layout().alpha.loss
            },
        }),
{
    let r = color.r;
    let g = color.g;
    let b = color.b;
    let a = color.a;
    assert((((((((((((r as u32) >> 5u32) << 5u32) | (((g as u32) >> 5u32) << 2u32)) | (((b as u32) >> 6u32) << 0u32)) | (((a as u32) >> 8u32) << 0u32)) & ((0xFFu32 >> 5u32) << 5u32)) >> 5u32) << 5u32) & 0xFF) as u8) == (r >> 5u8) << 5u8 &&
        (((((((((((r as u32) >> 5u32) << 5u32) | (((g as u32) >> 5u32) << 2u32)) | (((b as u32) >> 6u32) << 0u32)) | (((a as u32) >> 8u32) << 0u32)) & ((0xFFu32 >> 5u32) << 2u32)) >> 2u32) << 5u32) & 0xFF) as u8) == (g >> 5u8) << 5u8 &&
        (((((((((((r as u32) >> 5u32) << 5u32) | (((g as u32) >> 5u32) << 2u32)) | (((b as u32) >> 6u32) << 0u32)) | (((a as u32) >> 8u32) << 0u32)) & ((0xFFu32 >> 6u32) << 0u32)) >> 0u32) << 6u32) & 0xFF) as u8) == (b >> 6u8) << 6u8 &&
        (((((((((((r as u32) >> 4u32) << 8u32) | (((g as u32) >> 4u32) << 4u32)) | (((b as u32) >> 4u32) << 0u32)) | (((a as u32) >> 8u32) << 0u32)) & ((0xFFu32 >> 4u32) << 8u32)) >> 8u32) << 4u32) & 0xFF) as u8) == (r >> 4u8) << 4u8 &&
        (((((((((((r as u32) >> 4u32) << 8u32) | (((g as u32) >> 4u32) << 4u32)) | (((b as u32) >> 4u32) << 0u32)) | (((a as u32) >> 8u32) << 0u32)) & ((0xFFu32 >> 4u32) << 4u32)) >> 4u32) << 4u32) & 0xFF) as u8) == (g >> 4u8) << 4u8 &&
        (((((((((((r as u32) >> 4u32) << 8u32) | (((g as u32) >> 4u32) << 4u32)) | (((b as u32) >> 4u32) << 0u32)) | (((a as u32) >> 8u32) << 0u32)) & ((0xFFu32 >> 4u32) << 0u32)) >> 0u32) << 4u32) & 0xFF) as u8) == (b >> 4u8) << 4u8 &&
        (((((((((((r as u32) >> 3u32) << 10u32) | (((g as u32) >> 3u32) << 5u32)) | (((b as u32) >> 3u32) << 0u32)) | (((a as u32) >> 8u32) << 0u32)) & ((0xFFu32 >> 3u32) << 10u32)) >> 10u32) << 3u32) & 0xFF) as u8) == (r >> 3u8) << 3u8 &&
        (((((((((((r as u32) >> 3u32) << 10u32) | (((g as u32) >> 3u32) << 5u32)) | (((b as u32) >> 3u32) << 0u32)) | (((a as u32) >> 8u32) << 0u32)) & ((0xFFu32 >> 3u32) << 5u32)) >> 5u32) << 3u32) & 0xFF) as u8) == (g >> 3u8) << 3u8 &&
        (((((((((((r as u32) >> 3u32) << 10u32) | (((g as u32) >> 3u32) << 5u32)) | (((b as u32) >> 3u32) << 0u32)) | (((a as u32) >> 8u32) << 0u32)) & ((0xFFu32 >> 3u32) << 0u32)) >> 0u32) << 3u32) & 0xFF) as u8) == (b >> 3u8) << 3u8 &&
        (((((((((((r as u32) >> 3u32) << 11u32) | (((g as u32) >> 2u32) << 5u32)) | (((b as u32) >> 3u32) << 0u32)) | (((a as u32) >> 8u32) << 0u32)) & ((0xFFu32 >> 3u32) << 11u32)) >> 11u32) << 3u32) & 0xFF) as u8) == (r >> 3u8) << 3u8 &&
        (((((((((((r as u32) >> 3u32) << 11u32) | (((g as u32) >> 2u32) << 5u32)) | (((b as u32) >> 3u32) << 0u32)) | (((a as u32) >> 8u32) << 0u32)) & ((0xFFu32 >> 2u32) << 5u32)) >> 5u32) << 2u32) & 0xFF) as u8) == (g >> 2u8) << 2u8 &&
        (((((((((((r as u32) >> 3u32) << 11u32) | (((g as u32) >> 2u32) << 5u32)) | (((b as u32) >> 3u32) << 0u32)) | (((a as u32) >> 8u32) << 0u32)) & ((0xFFu32 >> 3u32) << 0u32)) >> 0u32) << 3u32) & 0xFF) as u8) == (b >> 3u8) << 3u8 &&
        (((((((((((r as u32) >> 3u32) << 10u32) | (((g as u32) >> 3u32) << 5u32)) | (((b as u32) >> 3u32) << 0u32)) | (((a as u32) >> 7u32) << 15u32)) & ((0xFFu32 >> 3u32) << 10u32)) >> 10u32) << 3u32) & 0xFF) as u8) == (r >> 3u8) << 3u8 &&
        (((((((((((r as u32) >> 3u32) << 10u32) | (((g as u32) >> 3u32) << 5u32)) | (((b as u32) >> 3u32) << 0u32)) | (((a as u32) >> 7u32) << 15u32)) & ((0xFFu32 >> 3u32) << 5u32)) >> 5u32) << 3u32) & 0xFF) as u8) == (g >> 3u8) << 3u8 &&
        (((((((((((r as u32) >> 3u32) << 10u32) | (((g as u32) >> 3u32) << 5u32)) | (((b as u32) >> 3u32) << 0u32)) | (((a as u32) >> 7u32) << 15u32)) & ((0xFFu32 >> 3u32) << 0u32)) >> 0u32) << 3u32) & 0xFF) as u8) == (b >> 3u8) << 3u8 &&
        (((((((((((r as u32) >> 3u32) << 10u32) | (((g as u32) >> 3u32) << 5u32)) | (((b as u32) >> 3u32) << 0u32)) | (((a as u32) >> 7u32) << 15u32)) & ((0xFFu32 >> 7u32) << 15u32)) >> 15u32) << 7u32) & 0xFF) as u8) == (a >> 7u8) << 7u8 &&
        (((((((((((r as u32) >> 4u32) << 8u32) | (((g as u32) >> 4u32) << 4u32)) | (((b as u32) >> 4u32) << 0u32)) | (((a as u32) >> 4u32) << 12u32)) & ((0xFFu32 >> 4u32) << 8u32)) >> 8u32) << 4u32) & 0xFF) as u8) == (r >> 4u8) << 4u8 &&
        (((((((((((r as u32) >> 4u32) << 8u32) | (((g as u32) >> 4u32) << 4u32)) | (((b as u32) >> 4u32) << 0u32)) | (((a as u32) >> 4u32) << 12u32)) & ((0xFFu32 >> 4u32) << 4u32)) >> 4u32) << 4u32) & 0xFF) as u8) == (g >> 4u8) << 4u8 &&
        (((((((((((r as u32) >> 4u32) << 8u32) | (((g as u32) >> 4u32) << 4u32)) | (((b as u32) >> 4u32) << 0u32)) | (((a as u32) >> 4u32) << 12u32)) & ((0xFFu32 >> 4u32) << 0u32)) >> 0u32) << 4u32) & 0xFF) as u8) == (b >> 4u8) << 4u8 &&
        (((((((((((r as u32) >> 4u32) << 8u32) | (((g as u32) >> 4u32) << 4u32)) | (((b as u32) >> 4u32) << 0u32)) | (((a as u32) >> 4u32) << 12u32)) & ((0xFFu32 >> 4u32) << 12u32)) >> 12u32) << 4u32) & 0xFF) as u8) == (a >> 4u8) << 4u8 &&
        (((((((((((r as u32) >> 0u32) << 16u32) | (((g as u32) >> 0u32) << 8u32)) | (((b as u32) >> 0u32) << 0u32)) | (((a as u32) >> 8u32) << 0u32)) & ((0xFFu32 >> 0u32) << 16u32)) >> 16u32) << 0u32) & 0xFF) as u8) == (r >> 0u8) << 0u8 &&
        (((((((((((r as u32) >> 0u32) << 16u32) | (((g as u32) >> 0u32) << 8u32)) | (((b as u32) >> 0u32) << 0u32)) | (((a as u32) >> 8u32) << 0u32)) & ((0xFFu32 >> 0u32) << 8u32)) >> 8u32) << 0u32) & 0xFF) as u8) == (g >> 0u8) << 0u8 &&
        (((((((((((r as u32) >> 0u32) << 16u32) | (((g as u32) >> 0u32) << 8u32)) | (((b as u32) >> 0u32) << 0u32)) | (((a as u32) >> 8u32) << 0u32)) & ((0xFFu32 >> 0u32) << 0u32)) >> 0u32) << 0u32) & 0xFF) as u8) == (b >> 0u8) << 0u8 &&
        (((((((((((r as u32) >> 0u32) << 16u32) | (((g as u32) >> 0u32) << 8u32)) | (((b as u32) >> 0u32) << 0u32)) | (((a as u32) >> 0u32) << 24u32)) & ((0xFFu32 >> 0u32) << 16u32)) >> 16u32) << 0u32) & 0xFF) as u8) == (r >> 0u8) << 0u8 &&
        (((((((((((r as u32) >> 0u32) << 16u32) | (((g as u32) >> 0u32) << 8u32)) | (((b as u32) >> 0u32) << 0u32)) | (((a as u32) >> 0u32) << 24u32)) & ((0xFFu32 >> 0u32) << 8u32)) >> 8u32) << 0u32) & 0xFF) as u8) == (g >> 0u8) << 0u8 &&
        (((((((((((r as u32) >> 0u32) << 16u32) | (((g as u32) >> 0u32) << 8u32)) | (((b as u32) >> 0u32) << 0u32)) | (((a as u32) >> 0u32) << 24u32)) & ((0xFFu32 >> 0u32) << 0u32)) >> 0u32) << 0u32) & 0xFF) as u8) == (b >> 0u8) << 0u8 &&
        (((((((((((r as u32) >> 0u32) << 16u32) | (((g as u32) >> 0u32) << 8u32)) | (((b as u32) >> 0u32) << 0u32)) | (((a as u32) >> 0u32) << 24u32)) & ((0xFFu32 >> 0u32) << 24u32)) >> 24u32) << 0u32) & 0xFF) as u8) == (a >> 0u8) << 0u8 &&
        (((((((((((r as u32) >> 0u32) << 24u32) | (((g as u32) >> 0u32) << 16u32)) | (((b as u32) >> 0u32) << 8u32)) | (((a as u32) >> 0u32) << 0u32)) & ((0xFFu32 >> 0u32) << 24u32)) >> 24u32) << 0u32) & 0xFF) as u8) == (r >> 0u8) << 0u8 &&
        (((((((((((r as u32) >> 0u32) << 24u32) | (((g as u32) >> 0u32) << 16u32)) | (((b as u32) >> 0u32) << 8u32)) | (((a as u32) >> 0u32) << 0u32)) & ((0xFFu32 >> 0u32) << 16u32)) >> 16u32) << 0u32) & 0xFF) as u8) == (g >> 0u8) << 0u8 &&
        (((((((((((r as u32) >> 0u32) << 24u32) | (((g as u32) >> 0u32) << 16u32)) | (((b as u32) >> 0u32) << 8u32)) | (((a as u32) >> 0u32) << 0u32)) & ((0xFFu32 >> 0u32) << 8u32)) >> 8u32) << 0u32) & 0xFF) as u8) == (b >> 0u8) << 0u8 &&
        (((((((((((r as u32) >> 0u32) << 24u32) | (((g as u32) >> 0u32) << 16u32)) | (((b as u32) >> 0u32) << 8u32)) | (((a as u32) >> 0u32) << 0u32)) & ((0xFFu32 >> 0u32) << 0u32)) >> 0u32) << 0u32) & 0xFF) as u8) == (a >> 0u8) << 0u8 &&
        (((((((((((r as u32) >> 0u32) << 0u32) | (((g as u32) >> 0u32) << 8u32)) | (((b as u32) >> 0u32) << 16u32)) | (((a as u32) >> 0u32) << 24u32)) & ((0xFFu32 >> 0u32) << 0u32)) >> 0u32) << 0u32) & 0xFF) as u8) == (r >> 0u8) << 0u8 &&
        (((((((((((r as u32) >> 0u32) << 0u32) | (((g as u32) >> 0u32) << 8u32)) | (((b as u32) >> 0u32) << 16u32)) | (((a as u32) >> 0u32) << 24u32)) & ((0xFFu32 >> 0u32) << 8u32)) >> 8u32) << 0u32) & 0xFF) as u8) == (g >> 0u8) << 0u8 &&
        (((((((((((r as u32) >> 0u32) << 0u32) | (((g as u32) >> 0u32) << 8u32)) | (((b as u32) >> 0u32) << 16u32)) | (((a as u32) >> 0u32) << 24u32)) & ((0xFFu32 >> 0u32) << 16u32)) >> 16u32) << 0u32) & 0xFF) as u8) == (b >> 0u8) << 0u8 &&
        (((((((((((r as u32) >> 0u32) << 0u32) | (((g as u32) >> 0u32) << 8u32)) | (((b as u32) >> 0u32) << 16u32)) | (((a as u32) >> 0u32) << 24u32)) & ((0xFFu32 >> 0u32) << 24u32)) >> 24u32) << 0u32) & 0xFF) as u8) == (a >> 0u8) << 0u8 &&
        (((((((((((r as u32) >> 0u32) << 8u32) | (((g as u32) >> 0u32) << 16u32)) | (((b as u32) >> 0u32) << 24u32)) | (((a as u32) >> 0u32) << 0u32)) & ((0xFFu32 >> 0u32) << 8u32)) >> 8u32) << 0u32) & 0xFF) as u8) == (r >> 0u8) << 0u8 &&
        (((((((((((r as u32) >> 0u32) << 8u32) | (((g as u32) >> 0u32) << 16u32)) | (((b as u32) >> 0u32) << 24u32)) | (((a as u32) >> 0u32) << 0u32)) & ((0xFFu32 >> 0u32) << 16u32)) >> 16u32) << 0u32) & 0xFF) as u8) == (g >> 0u8) << 0u8 &&
        (((((((((((r as u32) >> 0u32) << 8u32) | (((g as u32) >> 0u32) << 16u32)) | (((b as u32) >> 0u32) << 24u32)) | (((a as u32) >> 0u32) << 0u32)) & ((0xFFu32 >> 0u32) << 24u32)) >> 24u32) << 0u32) & 0xFF) as u8) == (b >> 0u8) << 0u8 &&
        (((((((((((r as u32) >> 0u32) << 8u32) | (((g as u32) >> 0u32) << 16u32)) | (((b as u32) >> 0u32) << 24u32)) | (((a as u32) >> 0u32) << 0u32)) & ((0xFFu32 >> 0u32) << 0u32)) >> 0u32) << 0u32) & 0xFF) as u8) == (a >> 0u8) << 0u8) by (bit_vector);
}

/// With no bit loss on any color channel the round trip is exact.
pub proof fn lemma_rgb_round_trip_lossless(kind: PixelFormatKind, color: Rgb)
    requires
        !kind.spec_is_palette(),
        kind.spec_layout().red.loss == 0,
        kind.spec_layout().green.loss == 0,
        kind.spec_layout().blue.loss == 0,
    ensures
        spec_rgb_of_pixel(kind, spec_pixel_of_rgb(kind, color)) == color,
{
    lemma_rgb_round_trip(kind, color);
    let r = color.r;
    let g = color.g;
    let b = color.b;
    assert((r >> 0u8) << 0u8 == r && (g >> 0u8) << 0u8 == g && (b >> 0u8) << 0u8 == b)
        by (bit_vector);
}

/// Clearing the low `loss` bits never increases a channel value and
/// changes it by less than two to the `loss`.
pub proof fn lemma_quantization_bound(v: u8, loss: u8)
    by (bit_vector)
    requires
        loss <= 8,
    ensures
        (v >> loss) << loss <= v,
        (v as u16) < (((v >> loss) << loss) as u16) + (1u16 << (loss as u16)),
{
}

/// The channel masks of a true-color kind never overlap, and together
/// they cover exactly the kind's declared bit depth.
pub proof fn lemma_true_color_masks(kind: PixelFormatKind)
    requires
        !kind.spec_is_palette(),
    ensures
        ({
            let l = kind.spec_layout();
            let rm = spec_channel_mask(l.red.loss, l.red.shift);
            let gm = spec_channel_mask(l.green.loss, l.green.shift);
            let bm = spec_channel_mask(l.blue.loss, l.blue.shift);
            let am = spec_channel_mask(l.alpha.loss, l.alpha.shift);
            &&& rm & gm == 0
            &&& rm & bm == 0
            &&& rm & am == 0
            &&& gm & bm == 0
            &&& gm & am == 0
            &&& bm & am == 0
            &&& ((rm | gm) | bm) | am == spec_depth_mask(kind.spec_bits_per_pixel())
        }),
{
    assert(((0xFFu32 >> 5u32) << 5u32) & ((0xFFu32 >> 5u32) << 2u32) == 0u32 &&
        ((0xFFu32 >> 5u32) << 5u32) & ((0xFFu32 >> 6u32) << 0u32) == 0u32 &&
        ((0xFFu32 >> 5u32) << 5u32) & ((0xFFu32 >> 8u32) << 0u32) == 0u32 &&
        ((0xFFu32 >> 5u32) << 2u32) & ((0xFFu32 >> 6u32) << 0u32) == 0u32 &&
        ((0xFFu32 >> 5u32) << 2u32) & ((0xFFu32 >> 8u32) << 0u32) == 0u32 &&
        ((0xFFu32 >> 6u32) << 0u32) & ((0xFFu32 >> 8u32) << 0u32) == 0u32 &&
        ((((0xFFu32 >> 5u32) << 5u32) | ((0xFFu32 >> 5u32) << 2u32)) | ((0xFFu32 >> 6u32) << 0u32)) | ((0xFFu32 >> 8u32) << 0u32) == 0xFFu32 &&
        ((0xFFu32 >> 4u32) << 8u32) & ((0xFFu32 >> 4u32) << 4u32) == 0u32 &&
        ((0xFFu32 >> 4u32) << 8u32) & ((0xFFu32 >> 4u32) << 0u32) == 0u32 &&
        ((0xFFu32 >> 4u32) << 8u32) & ((0xFFu32 >> 8u32) << 0u32) == 0u32 &&
        ((0xFFu32 >> 4u32) << 4u32) & ((0xFFu32 >> 4u32) << 0u32) == 0u32 &&
        ((0xFFu32 >> 4u32) << 4u32) & ((0xFFu32 >> 8u32) << 0u32) == 0u32 &&
        ((0xFFu32 >> 4u32) << 0u32) & ((0xFFu32 >> 8u32) << 0u32) == 0u32 &&
        ((((0xFFu32 >> 4u32) << 8u32) | ((0xFFu32 >> 4u32) << 4u32)) | ((0xFFu32 >> 4u32) << 0u32)) | ((0xFFu32 >> 8u32) << 0u32) == 0xFFFu32 &&
        ((0xFFu32 >> 3u32) << 10u32) & ((0xFFu32 >> 3u32) << 5u32) == 0u32 &&
        ((0xFFu32 >> 3u32) << 10u32) & ((0xFFu32 >> 3u32) << 0u32) == 0u32 &&
        ((0xFFu32 >> 3u32) << 10u32) & ((0xFFu32 >> 8u32) << 0u32) == 0u32 &&
        ((0xFFu32 >> 3u32) << 5u32) & ((0xFFu32 >> 3u32) << 0u32) == 0u32 &&
        ((0xFFu32 >> 3u32) << 5u32) & ((0xFFu32 >> 8u32) << 0u32) == 0u32 &&
        ((0xFFu32 >> 3u32) << 0u32) & ((0xFFu32 >> 8u32) << 0u32) == 0u32 &&
        ((((0xFFu32 >> 3u32) << 10u32) | ((0xFFu32 >> 3u32) << 5u32)) | ((0xFFu32 >> 3u32) << 0u32)) | ((0xFFu32 >> 8u32) << 0u32) == 0x7FFFu32 &&
        ((0xFFu32 >> 3u32) << 11u32) & ((0xFFu32 >> 2u32) << 5u32) == 0u32 &&
        ((0xFFu32 >> 3u32) << 11u32) & ((0xFFu32 >> 3u32) << 0u32) == 0u32 &&
        ((0xFFu32 >> 3u32) << 11u32) & ((0xFFu32 >> 8u32) << 0u32) == 0u32 &&
        ((0xFFu32 >> 2u32) << 5u32) & ((0xFFu32 >> 3u32) << 0u32) == 0u32 &&
        ((0xFFu32 >> 2u32) << 5u32) & ((0xFFu32 >> 8u32) << 0u32) == 0u32 &&
        ((0xFFu32 >> 3u32) << 0u32) & ((0xFFu32 >> 8u32) << 0u32) == 0u32 &&
        ((((0xFFu32 >> 3u32) << 11u32) | ((0xFFu32 >> 2u32) << 5u32)) | ((0xFFu32 >> 3u32) << 0u32)) | ((0xFFu32 >> 8u32) << 0u32) == 0xFFFFu32 &&
        ((0xFFu32 >> 3u32) << 10u32) & ((0xFFu32 >> 3u32) << 5u32) == 0u32 &&
        ((0xFFu32 >> 3u32) << 10u32) & ((0xFFu32 >> 3u32) << 0u32) == 0u32 &&
        ((0xFFu32 >> 3u32) << 10u32) & ((0xFFu32 >> 7u32) << 15u32) == 0u32 &&
        ((0xFFu32 >> 3u32) << 5u32) & ((0xFFu32 >> 3u32) << 0u32) == 0u32 &&
        ((0xFFu32 >> 3u32) << 5u32) & ((0xFFu32 >> 7u32) << 15u32) == 0u32 &&
        ((0xFFu32 >> 3u32) << 0u32) & ((0xFFu32 >> 7u32) << 15u32) == 0u32 &&
        ((((0xFFu32 >> 3u32) << 10u32) | ((0xFFu32 >> 3u32) << 5u32)) | ((0xFFu32 >> 3u32) << 0u32)) | ((0xFFu32 >> 7u32) << 15u32) == 0xFFFFu32 &&
        ((0xFFu32 >> 4u32) << 8u32) & ((0xFFu32 >> 4u32) << 4u32) == 0u32 &&
        ((0xFFu32 >> 4u32) << 8u32) & ((0xFFu32 >> 4u32) << 0u32) == 0u32 &&
        ((0xFFu32 >> 4u32) << 8u32) & ((0xFFu32 >> 4u32) << 12u32) == 0u32 &&
        ((0xFFu32 >> 4u32) << 4u32) & ((0xFFu32 >> 4u32) << 0u32) == 0u32 &&
        ((0xFFu32 >> 4u32) << 4u32) & ((0xFFu32 >> 4u32) << 12u32) == 0u32 &&
        ((0xFFu32 >> 4u32) << 0u32) & ((0xFFu32 >> 4u32) << 12u32) == 0u32 &&
        ((((0xFFu32 >> 4u32) << 8u32) | ((0xFFu32 >> 4u32) << 4u32)) | ((0xFFu32 >> 4u32) << 0u32)) | ((0xFFu32 >> 4u32) << 12u32) == 0xFFFFu32 &&
        ((0xFFu32 >> 0u32) << 16u32) & ((0xFFu32 >> 0u32) << 8u32) == 0u32 &&
        ((0xFFu32 >> 0u32) << 16u32) & ((0xFFu32 >> 0u32) << 0u32) == 0u32 &&
        ((0xFFu32 >> 0u32) << 16u32) & ((0xFFu32 >> 8u32) << 0u32) == 0u32 &&
        ((0xFFu32 >> 0u32) << 8u32) & ((0xFFu32 >> 0u32) << 0u32) == 0u32 &&
        ((0xFFu32 >> 0u32) << 8u32) & ((0xFFu32 >> 8u32) << 0u32) == 0u32 &&
        ((0xFFu32 >> 0u32) << 0u32) & ((0xFFu32 >> 8u32) << 0u32) == 0u32 &&
        ((((0xFFu32 >> 0u32) << 16u32) | ((0xFFu32 >> 0u32) << 8u32)) | ((0xFFu32 >> 0u32) << 0u32)) | ((0xFFu32 >> 8u32) << 0u32) == 0xFFFFFFu32 &&
        ((0xFFu32 >> 0u32) << 16u32) & ((0xFFu32 >> 0u32) << 8u32) == 0u32 &&
        ((0xFFu32 >> 0u32) << 16u32) & ((0xFFu32 >> 0u32) << 0u32) == 0u32 &&
        ((0xFFu32 >> 0u32) << 16u32) & ((0xFFu32 >> 0u32) << 24u32) == 0u32 &&
        ((0xFFu32 >> 0u32) << 8u32) & ((0xFFu32 >> 0u32) << 0u32) == 0u32 &&
        ((0xFFu32 >> 0u32) << 8u32) & ((0xFFu32 >> 0u32) << 24u32) == 0u32 &&
        ((0xFFu32 >> 0u32) << 0u32) & ((0xFFu32 >> 0u32) << 24u32) == 0u32 &&
        ((((0xFFu32 >> 0u32) << 16u32) | ((0xFFu32 >> 0u32) << 8u32)) | ((0xFFu32 >> 0u32) << 0u32)) | ((0xFFu32 >> 0u32) << 24u32) == 0xFFFFFFFFu32 &&
        ((0xFFu32 >> 0u32) << 24u32) & ((0xFFu32 >> 0u32) << 16u32) == 0u32 &&
        ((0xFFu32 >> 0u32) << 24u32) & ((0xFFu32 >> 0u32) << 8u32) == 0u32 &&
        ((0xFFu32 >> 0u32) << 24u32) & ((0xFFu32 >> 0u32) << 0u32) == 0u32 &&
        ((0xFFu32 >> 0u32) << 16u32) & ((0xFFu32 >> 0u32) << 8u32) == 0u32 &&
        ((0xFFu32 >> 0u32) << 16u32) & ((0xFFu32 >> 0u32) << 0u32) == 0u32 &&
        ((0xFFu32 >> 0u32) << 8u32) & ((0xFFu32 >> 0u32) << 0u32) == 0u32 &&
        ((((0xFFu32 >> 0u32) << 24u32) | ((0xFFu32 >> 0u32) << 16u32)) | ((0xFFu32 >> 0u32) << 8u32)) | ((0xFFu32 >> 0u32) << 0u32) == 0xFFFFFFFFu32 &&
        ((0xFFu32 >> 0u32) << 0u32) & ((0xFFu32 >> 0u32) << 8u32) == 0u32 &&
        ((0xFFu32 >> 0u32) << 0u32) & ((0xFFu32 >> 0u32) << 16u32) == 0u32 &&
        ((0xFFu32 >> 0u32) << 0u32) & ((0xFFu32 >> 0u32) << 24u32) == 0u32 &&
        ((0xFFu32 >> 0u32) << 8u32) & ((0xFFu32 >> 0u32) << 16u32) == 0u32 &&
        ((0xFFu32 >> 0u32) << 8u32) & ((0xFFu32 >> 0u32) << 24u32) == 0u32 &&
        ((0xFFu32 >> 0u32) << 16u32) & ((0xFFu32 >> 0u32) << 24u32) == 0u32 &&
        ((((0xFFu32 >> 0u32) << 0u32) | ((0xFFu32 >> 0u32) << 8u32)) | ((0xFFu32 >> 0u32) << 16u32)) | ((0xFFu32 >> 0u32) << 24u32) == 0xFFFFFFFFu32 &&
        ((0xFFu32 >> 0u32) << 8u32) & ((0xFFu32 >> 0u32) << 16u32) == 0u32 &&
        ((0xFFu32 >> 0u32) << 8u32) & ((0xFFu32 >> 0u32) << 24u32) == 0u32 &&
        ((0xFFu32 >> 0u32) << 8u32) & ((0xFFu32 >> 0u32) << 0u32) == 0u32 &&
        ((0xFFu32 >> 0u32) << 16u32) & ((0xFFu32 >> 0u32) << 24u32) == 0u32 &&
        ((0xFFu32 >> 0u32) << 16u32) & ((0xFFu32 >> 0u32) << 0u32) == 0u32 &&
        ((0xFFu32 >> 0u32) << 24u32) & ((0xFFu32 >> 0u32) << 0u32) == 0u32 &&
        ((((0xFFu32 >> 0u32) << 8u32) | ((0xFFu32 >> 0u32) << 16u32)) | ((0xFFu32 >> 0u32) << 24u32)) | ((0xFFu32 >> 0u32) << 0u32) == 0xFFFFFFFFu32) by (bit_vector);
}

} // verus!
