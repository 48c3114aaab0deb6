//! How window input drives the cursor.
//!
//! While the fly camera is active the window grabs and hides the cursor.
//! Pressing escape releases it; clicking the left mouse button grabs it
//! again. A front end reduces each window event to an [`InputEvent`], hands
//! it to [`handle_input`] together with the current [`CursorState`], and
//! writes the new state back to the window.

use vstd::prelude::*;

verus! {

/// The keyboard keys the scene tells apart.
#[derive(Clone, Copy, PartialEq, Eq, Structural, Debug)]
pub enum Key {
    Escape,
    /// Any key other than escape.
    Other,
}

/// The pointer buttons the scene tells apart.
#[derive(Clone, Copy, PartialEq, Eq, Structural, Debug)]
pub enum PointerButton {
    Left,
    /// Any button other than the left one.
    Other,
}

/// A window event, reduced to what the scene inspects.
#[derive(Clone, Copy, PartialEq, Eq, Structural, Debug)]
pub enum InputEvent {
    /// A key went down.
    KeyDown(Key),
    /// A pointer button went down.
    ButtonDown(PointerButton),
    /// Anything else the window reports.
    Other,
}

/// Whether the window currently grabs and hides the cursor.
#[derive(Clone, Copy, PartialEq, Eq, Structural, Debug)]
pub struct CursorState {
    pub hide: bool,
}

/// The cursor state after an event: escape shows the cursor, a left click
/// hides it, and every other event leaves it as it was.
pub open spec fn spec_hide_after(hidden: bool, e: InputEvent) -> bool {
    match e {
        InputEvent::KeyDown(Key::Escape) => false,
        InputEvent::ButtonDown(PointerButton::Left) => true,
        _ => hidden,
    }
}

/// Applies one window event to the cursor state. Pressing escape releases
/// (shows) the cursor, clicking the left mouse button grabs (hides) it, and
/// every other event leaves it unchanged.
pub fn handle_input(state: &mut CursorState, e: &InputEvent)
    ensures
        final(state).hide == spec_hide_after(old(state).hide, *e),
{
    match e {
        InputEvent::KeyDown(Key::Escape) => {
            state.hide = false;
        }
        InputEvent::ButtonDown(PointerButton::Left) => {
            state.hide = true;
        }
        _ => {}
    }
}

/// Showing and hiding the cursor answer one another: after an escape press
/// the cursor is shown, and after a following left click it is hidden again,
/// whatever state the window started in.
pub proof fn lemma_click_after_escape_hides(hidden: bool)
    ensures
        spec_hide_after(spec_hide_after(hidden, InputEvent::KeyDown(Key::Escape)),
            InputEvent::ButtonDown(PointerButton::Left)),
        !spec_hide_after(spec_hide_after(hidden, InputEvent::ButtonDown(PointerButton::Left)),
            InputEvent::KeyDown(Key::Escape)),
{
}

} // verus!
