//! The open/closed state of the plugin's editor window and its fixed geometry.
use vstd::prelude::*;

verus! {

pub const WINDOW_WIDTH: i32 = 400;

pub const WINDOW_HEIGHT: i32 = 200;

/// Tracks whether the editor window is open. The host shell creates the window
/// when `open` grants it and tears it down on `close`.
pub struct RepeatEditor {
    pub is_open: bool,
}

impl RepeatEditor {
    pub fn new() -> (r: RepeatEditor)
        ensures
            !r.is_open,
    {
        RepeatEditor { is_open: false }
    }

    /// The window's position relative to its parent.
    pub fn position(&self) -> (r: (i32, i32))
        ensures
            r == (0i32, 0i32),
    {
        (0, 0)
    }

    /// The window's width and height in pixels.
    pub fn size(&self) -> (r: (i32, i32))
        ensures
            r == (WINDOW_WIDTH, WINDOW_HEIGHT),
    {
        (WINDOW_WIDTH, WINDOW_HEIGHT)
    }

    /// Grants opening the window: true, and marked open, if it was closed; false,
    /// changing nothing, if it is already open.
    pub fn open(&mut self) -> (r: bool)
        ensures
            r == !old(self).is_open,
            final(self).is_open,
    {
        if self.is_open {
            return false;
        }
        self.is_open = true;
        true
    }

    pub fn is_open(&self) -> (r: bool)
        ensures
            r == self.is_open,
    {
        self.is_open
    }

    pub fn close(&mut self)
        ensures
            !final(self).is_open,
    {
        self.is_open = false;
    }
}

} // verus!
