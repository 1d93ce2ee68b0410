//! Surfaces and their composable read-view decorators.
//!
//! A decorator wraps a surface-capable value, applies exactly one native
//! call at construction time, and is itself surface-capable, so chains
//! compose left to right.  Decorators take the wrapped value over without
//! duplicating the underlying resource; only [`cloned::Cloned`] owns a
//! new handle, made by a deep native duplication.

use vstd::prelude::*;

use crate::color::BlendMode;
use crate::color::Rgb;
use crate::geo::Rect;
use crate::native::CallLog;
use crate::native::NativeCall;

use self::alpha::Alpha;
use self::blend::Blended;
use self::clipped::Clipped;
use self::cloned::Cloned;
use self::color::Color;

pub mod alpha;
pub mod blend;
pub mod clipped;
pub mod cloned;
pub mod color;

verus! {

/// The native-visible state of one surface: its clip rectangle, blend
/// mode, alpha modulation and color modulation.
#[derive(Debug, Clone, Copy, PartialEq, Eq)]
pub struct SurfaceState {
    pub clip: Option<Rect>,
    pub blend: BlendMode,
    pub alpha: u8,
    pub color: Rgb,
}

impl SurfaceState {
    /// The state after the native clip-rectangle call.
    pub open spec fn with_clip(self, area: Rect) -> SurfaceState {
        SurfaceState { clip: Some(area), blend: self.blend, alpha: self.alpha, color: self.color }
    }

    /// The state after the native blend-mode call.
    pub open spec fn with_blend(self, mode: BlendMode) -> SurfaceState {
        SurfaceState { clip: self.clip, blend: mode, alpha: self.alpha, color: self.color }
    }

    /// The state after the native alpha-modulation call.
    pub open spec fn with_alpha(self, alpha: u8) -> SurfaceState {
        SurfaceState { clip: self.clip, blend: self.blend, alpha: alpha, color: self.color }
    }

    /// The state after the native color-modulation call.
    pub open spec fn with_color(self, color: Rgb) -> SurfaceState {
        SurfaceState { clip: self.clip, blend: self.blend, alpha: self.alpha, color: color }
    }
}

/// A surface-capable value: it reaches one underlying native surface,
/// whose state its decorators transform.
pub trait Surface: Sized {
    /// The modeled native state of the underlying surface.
    spec fn state(&self) -> SurfaceState;

    /// The raw handle of the underlying surface.
    spec fn raw_handle(&self) -> u64;

    /// The raw handle of the underlying surface, for handing to native
    /// calls.
    fn as_raw(&self) -> (handle: u64)
        ensures
            handle == self.raw_handle(),
    ;

    /// A copy of the underlying surface's current state.
    fn snapshot(&self) -> (state: SurfaceState)
        ensures
            state == self.state(),
    ;

    /// Forwards the native clip-rectangle call to the underlying
    /// surface.
    fn apply_clip(&mut self, area: Rect)
        ensures
            final(self).state() == old(self).state().with_clip(area),
            final(self).raw_handle() == old(self).raw_handle(),
    ;

    /// Forwards the native blend-mode call to the underlying surface.
    fn apply_blend(&mut self, mode: BlendMode)
        ensures
            final(self).state() == old(self).state().with_blend(mode),
            final(self).raw_handle() == old(self).raw_handle(),
    ;

    /// Forwards the native alpha-modulation call to the underlying
    /// surface.
    fn apply_alpha(&mut self, alpha: u8)
        ensures
            final(self).state() == old(self).state().with_alpha(alpha),
            final(self).raw_handle() == old(self).raw_handle(),
    ;

    /// Forwards the native color-modulation call to the underlying
    /// surface.
    fn apply_color(&mut self, color: Rgb)
        ensures
            final(self).state() == old(self).state().with_color(color),
            final(self).raw_handle() == old(self).raw_handle(),
    ;

    /// Deeply duplicates the underlying surface.  `duplicate` is the
    /// handle the native duplication returned; it is a fresh live
    /// handle, never the duplicated surface's own, so the clone is a
    /// second owner of nothing.  The result owns it and starts with
    /// this surface's state; the surface itself is untouched.
    fn cloned(&self, duplicate: u64) -> (c: Cloned)
        requires
            duplicate != 0,
            duplicate != self.raw_handle(),
        ensures
            c.owned_state() == self.state(),
            c.owned_handle() == duplicate,
    ;

    /// Clips this surface: applies the native clip-rectangle call once,
    /// now, and wraps the surface.
    fn clipped(self, area: Rect) -> (c: Clipped<Self>)
        ensures
            c.surface.state() == self.state().with_clip(area),
            c.surface.raw_handle() == self.raw_handle(),
            c.area == area,
    {
        let mut inner = self;
        inner.apply_clip(area);
        Clipped { surface: inner, area }
    }

    /// Blends this surface: applies the native blend-mode call once,
    /// now, and wraps the surface.
    fn blend(self, mode: BlendMode) -> (b: Blended<Self>)
        ensures
            b.surface.state() == self.state().with_blend(mode),
            b.surface.raw_handle() == self.raw_handle(),
            b.mode == mode,
    {
        let mut inner = self;
        inner.apply_blend(mode);
        Blended { surface: inner, mode }
    }

    /// Alpha-modulates this surface: applies the native
    /// alpha-modulation call once, now, and wraps the surface.
    fn alpha_mod(self, alpha: u8) -> (a: Alpha<Self>)
        ensures
            a.surface.state() == self.state().with_alpha(alpha),
            a.surface.raw_handle() == self.raw_handle(),
            a.alpha == alpha,
    {
        let mut inner = self;
        inner.apply_alpha(alpha);
        Alpha { surface: inner, alpha }
    }

    /// Color-modulates this surface: applies the native
    /// color-modulation call once, now, and wraps the surface.
    fn color_mod(self, color: Rgb) -> (c: Color<Self>)
        ensures
            c.surface.state() == self.state().with_color(color),
            c.surface.raw_handle() == self.raw_handle(),
            c.color == color,
    {
        let mut inner = self;
        inner.apply_color(color);
        Color { surface: inner, color }
    }
}

/// An owned native surface, modeled by its handle and native-visible
/// state.
pub struct NativeSurface {
    handle: u64,
    state: SurfaceState,
}

impl NativeSurface {
    /// Wraps a surface the native layer handed over, with the state it
    /// currently carries.
    pub fn new(handle: u64, state: SurfaceState) -> (s: NativeSurface)
        requires
            handle != 0,
        ensures
            s.state() == state,
            s.raw_handle() == handle,
    {
        NativeSurface { handle, state }
    }

    /// Releases the owned surface handle: the one free call this
    /// wrapper is responsible for is recorded, and the wrapper is
    /// consumed.
    pub fn close(self, log: &mut CallLog)
        ensures
            final(log)@ == old(log)@.push(NativeCall::Release(self.raw_handle())),
    {
        log.release(self.handle);
    }
}

impl Surface for NativeSurface {
    closed spec fn state(&self) -> SurfaceState {
        self.state
    }

    closed spec fn raw_handle(&self) -> u64 {
        self.handle
    }

    fn as_raw(&self) -> (handle: u64) {
        self.handle
    }

    fn snapshot(&self) -> (state: SurfaceState) {
        self.state
    }

    fn cloned(&self, duplicate: u64) -> (c: Cloned) {
        Cloned::new(self.snapshot(), duplicate)
    }

    fn apply_clip(&mut self, area: Rect) {
        self.state = SurfaceState {
            clip: Some(area),
            blend: self.state.blend,
            alpha: self.state.alpha,
            color: self.state.color,
        };
    }

    fn apply_blend(&mut self, mode: BlendMode) {
        self.state = SurfaceState {
            clip: self.state.clip,
            blend: mode,
            alpha: self.state.alpha,
            color: self.state.color,
        };
    }

    fn apply_alpha(&mut self, alpha: u8) {
        self.state = SurfaceState {
            clip: self.state.clip,
            blend: self.state.blend,
            alpha: alpha,
            color: self.state.color,
        };
    }

    fn apply_color(&mut self, color: Rgb) {
        self.state = SurfaceState {
            clip: self.state.clip,
            blend: self.state.blend,
            alpha: self.state.alpha,
            color: color,
        };
    }
}

/// A decorator chain equals the direct calls: clipping, blending and
/// alpha-modulating a surface in that order leaves exactly the state
/// that issuing the three native calls directly in that order leaves.
pub proof fn lemma_chain_matches_direct_calls(
    start: SurfaceState,
    area: Rect,
    mode: BlendMode,
    alpha: u8,
)
    ensures
        start.with_clip(area).with_blend(mode).with_alpha(alpha) == (SurfaceState {
            clip: Some(area),
            blend: mode,
            alpha: alpha,
            color: start.color,
        }),
{
}

} // verus!
