//! The deep-duplication decorator.

use vstd::prelude::*;

use crate::color::BlendMode;
use crate::color::Rgb;
use crate::geo::Rect;
use crate::native::CallLog;
use crate::native::NativeCall;

use super::Surface;
use super::SurfaceState;

verus! {

/// A deep copy of a surface.  Unlike the borrowing decorators, a clone
/// owns its own native handle and must be released once.
pub struct Cloned {
    handle: u64,
    state: SurfaceState,
}

impl Cloned {
    /// The modeled native state of the owned duplicate.
    pub closed spec fn owned_state(&self) -> SurfaceState {
        self.state
    }

    /// The raw handle of the owned duplicate.
    pub closed spec fn owned_handle(&self) -> u64 {
        self.handle
    }

    /// Wraps the handle the native duplication returned, carrying over
    /// the duplicated surface's state.
    pub(super) fn new(state: SurfaceState, duplicate: u64) -> (c: Cloned)
        requires
            duplicate != 0,
        ensures
            c.owned_state() == state,
            c.owned_handle() == duplicate,
    {
        Cloned { handle: duplicate, state }
    }

    /// Releases the owned duplicate handle: the one free call this
    /// wrapper is responsible for is recorded, and the wrapper is
    /// consumed.
    pub fn close(self, log: &mut CallLog)
        ensures
            final(log)@ == old(log)@.push(NativeCall::Release(self.owned_handle())),
    {
        log.release(self.handle);
    }
}

impl Surface for Cloned {
    open spec fn state(&self) -> SurfaceState {
        self.owned_state()
    }

    open spec fn raw_handle(&self) -> u64 {
        self.owned_handle()
    }

    fn as_raw(&self) -> (handle: u64) {
        self.handle
    }

    fn snapshot(&self) -> (state: SurfaceState) {
        self.state
    }

    fn cloned(&self, duplicate: u64) -> (c: Cloned) {
        Cloned::new(self.state, duplicate)
    }

    fn apply_clip(&mut self, area: Rect) {
        self.state = SurfaceState {
            clip: Some(area),
            blend: self.state.blend,
            alpha: self.state.alpha,
            color: self.state.color,
        };
    }

    fn apply_blend(&mut self, mode: BlendMode) {
        self.state = SurfaceState {
            clip: self.state.clip,
            blend: mode,
            alpha: self.state.alpha,
            color: self.state.color,
        };
    }

    fn apply_alpha(&mut self, alpha: u8) {
        self.state = SurfaceState {
            clip: self.state.clip,
            blend: self.state.blend,
            alpha: alpha,
            color: self.state.color,
        };
    }

    fn apply_color(&mut self, color: Rgb) {
        self.state = SurfaceState {
            clip: self.state.clip,
            blend: self.state.blend,
            alpha: self.state.alpha,
            color: color,
        };
    }
}

} // verus!
