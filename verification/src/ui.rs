//! The decisions of the main menu.
use vstd::prelude::*;
use crate::app_state::AppState;

verus! {

/// How the pointer is engaged with a menu button.
#[derive(Clone, Copy, PartialEq, Eq, Structural, Debug)]
pub enum ButtonInteraction {
    /// The button is being pressed.
    Pressed,
    /// The pointer is over the button.
    Hovered,
    /// The pointer is elsewhere.
    Away,
}

/// The two background colors of a menu button.
pub struct ColorChanging<C> {
    pub base: C,
    pub hovered: C,
}

impl<C: Copy> ColorChanging<C> {
    /// The background a button shows: the hover color while the pointer is on
    /// it, pressed or not, and the base color otherwise.
    pub fn color_for(&self, interaction: ButtonInteraction) -> (c: C)
        ensures
            c == (if interaction == ButtonInteraction::Away {
                self.base
            } else {
                self.hovered
            }),
    {
        match interaction {
            ButtonInteraction::Hovered | ButtonInteraction::Pressed => self.hovered,
            ButtonInteraction::Away => self.base,
        }
    }
}

/// The state a menu button leads to: its own target when it is pressed,
/// none otherwise.
pub fn button_system(interaction: ButtonInteraction, target: AppState) -> (next: Option<AppState>)
    ensures
        next == (if interaction == ButtonInteraction::Pressed {
            Some(target)
        } else {
            None::<AppState>
        }),
{
    match interaction {
        ButtonInteraction::Pressed => Some(target),
        _ => None,
    }
}

} // verus!
