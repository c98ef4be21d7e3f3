//! Interaction signals and the visual feedback that follows them.
//!
//! The host reports, once per tick and per interactive element, one
//! [`Interaction`]. Two consumers read it: the menu's action handler, and the
//! purely visual [`button_system`] of this module, which never touches any
//! state of the menu.

use vstd::prelude::*;

verus! {

/// What the host reports for one interactive element in one tick.
#[derive(Clone, Copy, Debug, PartialEq, Eq, Hash, Structural)]
pub enum Interaction {
    /// The element was pressed in this tick.
    Clicked,
    /// The pointer rests on the element.
    Hovered,
    /// Nothing happens to the element.
    Idle,
}

/// The highlight a button is drawn with. The host decides which colour value
/// each highlight is.
#[derive(Clone, Copy, Debug, PartialEq, Eq, Hash, Structural)]
pub enum ButtonColor {
    Normal,
    Hovered,
    Pressed,
}

/// The highlight that belongs to an interaction.
pub open spec fn color_for(interaction: Interaction) -> ButtonColor {
    match interaction {
        Interaction::Idle => ButtonColor::Normal,
        Interaction::Hovered => ButtonColor::Hovered,
        Interaction::Clicked => ButtonColor::Pressed,
    }
}

/// What [`button_system`] leaves in place of one button.
pub open spec fn repainted(button: (Interaction, ButtonColor)) -> (Interaction, ButtonColor) {
    (button.0, color_for(button.0))
}

/// Computes the highlight of one button from its interaction.
pub fn button_color(interaction: Interaction) -> (color: ButtonColor)
    ensures
        color == color_for(interaction),
{
    match interaction {
        Interaction::Idle => ButtonColor::Normal,
        Interaction::Hovered => ButtonColor::Hovered,
        Interaction::Clicked => ButtonColor::Pressed,
    }
}

/// Repaints every button whose interaction the host reported in this tick:
/// each gets the highlight of its interaction, whatever it showed before.
/// The interactions themselves are left as they are.
pub fn button_system(buttons: &mut Vec<(Interaction, ButtonColor)>)
    ensures
        final(buttons)@ == old(buttons)@.map_values(|b: (Interaction, ButtonColor)| repainted(b)),
{
    let ghost before = buttons@;
    let mut i: usize = 0;
    while i < buttons.len()
        invariant
            i <= buttons.len(),
            buttons.len() == before.len(),
            forall|j: int| 0 <= j < i ==> buttons@[j] == repainted(#[trigger] before[j]),
            forall|j: int| i <= j < before.len() ==> buttons@[j] == #[trigger] before[j],
        decreases buttons.len() - i,
    {
        let interaction = buttons[i].0;
        buttons.set(i, (interaction, button_color(interaction)));
        i += 1;
    }
}

} // verus!
