//! The alpha-modulation decorator.

use vstd::prelude::*;

use crate::color::BlendMode;
use crate::color::Rgb;
use crate::geo::Rect;

use super::Surface;
use super::SurfaceState;
use super::cloned::Cloned;

verus! {

/// A surface with this view's native call already applied: the call
/// was issued once, when the view was built by the corresponding
/// [`Surface`] method.
pub struct Alpha<S> {
    /// The wrapped surface.
    pub surface: S,
    /// The captured parameter of the view.
    pub alpha: u8,
}

impl<S> Alpha<S> {
    /// The captured alpha value.
    pub fn alpha(&self) -> (value: u8)
        ensures
            value == self.alpha,
    {
        self.alpha
    }
}

impl<S: Surface> Surface for Alpha<S> {
    open spec fn state(&self) -> SurfaceState {
        self.surface.state()
    }

    open spec fn raw_handle(&self) -> u64 {
        self.surface.raw_handle()
    }

    fn as_raw(&self) -> (handle: u64) {
        self.surface.as_raw()
    }

    fn snapshot(&self) -> (state: SurfaceState) {
        self.surface.snapshot()
    }

    fn cloned(&self, duplicate: u64) -> (c: Cloned) {
        Cloned::new(self.surface.snapshot(), duplicate)
    }

    fn apply_clip(&mut self, area: Rect) {
        self.surface.apply_clip(area);
    }

    fn apply_blend(&mut self, mode: BlendMode) {
        self.surface.apply_blend(mode);
    }

    fn apply_alpha(&mut self, alpha: u8) {
        self.surface.apply_alpha(alpha);
    }

    fn apply_color(&mut self, color: Rgb) {
        self.surface.apply_color(color);
    }
}

} // verus!
