//! Grabbing and releasing the mouse cursor.
use vstd::prelude::*;

verus! {

/// How the window holds the cursor.
#[derive(Clone, Copy, PartialEq, Eq, Structural, Debug)]
pub enum CursorGrabMode {
    /// The cursor moves freely.
    Free,
    /// The cursor is kept inside the window.
    Confined,
    /// The cursor is held in place.
    Locked,
}

/// The cursor settings of the primary window.
#[derive(Clone, Copy, PartialEq, Eq, Structural, Debug)]
pub struct CursorOptions {
    pub grab_mode: CursorGrabMode,
    pub visible: bool,
}

/// A left click grabs the cursor and hides it; Escape releases it and shows
/// it again. When both come on the same frame, Escape has the last word.
/// With neither, the settings stay as they are.
pub fn grab_cursor(cursor: &mut CursorOptions, left_just_pressed: bool, escape_just_pressed: bool)
    ensures
        *final(cursor) == (if escape_just_pressed {
            CursorOptions { grab_mode: CursorGrabMode::Free, visible: true }
        } else if left_just_pressed {
            CursorOptions { grab_mode: CursorGrabMode::Locked, visible: false }
        } else {
            *old(cursor)
        }),
{
    if left_just_pressed {
        cursor.grab_mode = CursorGrabMode::Locked;
        cursor.visible = false;
    }
    if escape_just_pressed {
        cursor.grab_mode = CursorGrabMode::Free;
        cursor.visible = true;
    }
}

impl CursorOptions {
    /// Mouse motion turns the player and tilts the camera only while the
    /// cursor is locked.
    pub fn steers_view(&self) -> (b: bool)
        ensures
            b == (self.grab_mode == CursorGrabMode::Locked),
    {
        match self.grab_mode {
            CursorGrabMode::Locked => true,
            _ => false,
        }
    }
}

} // verus!
