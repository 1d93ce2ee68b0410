//! Windows the native layer owns, as parents for modal requests.

use vstd::prelude::*;

pub mod message_box;

verus! {

/// A window the native layer manages, identified by its nonzero
/// handle.  The window itself lives and dies on the native side; this
/// wrapper only carries the handle to calls that need a parent.
pub struct Window {
    handle: u64,
}

impl Window {
    /// The raw window handle.
    pub closed spec fn raw_handle(&self) -> u64 {
        self.handle
    }

    /// Wraps a window handle the native layer handed over.
    pub fn new(handle: u64) -> (w: Window)
        requires
            handle != 0,
        ensures
            w.raw_handle() == handle,
    {
        Window { handle }
    }

    /// The raw window handle, for handing to native calls.
    pub fn as_raw(&self) -> (handle: u64)
        ensures
            handle == self.raw_handle(),
    {
        self.handle
    }
}

} // verus!
