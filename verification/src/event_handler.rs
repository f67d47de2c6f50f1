//! The event handler: the decisions driven by toolkit events, stated over
//! plain values.  The surrounding GUI layer reads the raw events, hands the
//! values in, and performs the redraws handed back.

use vstd::prelude::*;
use crate::basic_types::LabyrinthError;
use crate::grid::Grid;
use crate::labyrinth::{BoxState, Labyrinth, LabyrinthState};
use crate::rectangle::Rectangle;

verus! {

/// Handles the events the toolkit reports, mutating the labyrinth state.
#[derive(Debug)]
pub struct EventHandler;

impl EventHandler {
    pub fn new() -> (r: EventHandler)
        ensures
            r == (EventHandler {  }),
    {
        EventHandler {  }
    }

    /// Reacts to a resize: a surface with positive extents gets a freshly
    /// built labyrinth for them; a degenerate surface tears the labyrinth
    /// down.  The present labyrinth is never mutated in place.
    pub fn on_size_allocate(&mut self, state: &mut LabyrinthState, rect: &Rectangle) -> (r: Result<
        (),
        LabyrinthError,
    >)
        requires
            2 <= old(state).box_size,
            (rect.width as int / old(state).box_size as int) * (rect.height as int / old(
                state,
            ).box_size as int) <= usize::MAX / 2,
        ensures
            r is Ok,
            final(state).wf(),
            final(state).box_size == old(state).box_size,
            rect.width > 0 && rect.height > 0 ==> (final(state).labyrinth matches Some(l)
                && l.grid == Grid::spec_new(old(state).box_size, rect.width, rect.height) && (
            forall|i: int, j: int|
                0 <= i < l.grid.x_box_cnt && 0 <= j < l.grid.y_box_cnt ==> l.spec_state_at(i, j)
                    == BoxState::Empty)),
            !(rect.width > 0 && rect.height > 0) ==> final(state).labyrinth is None,
    {
        if rect.width > 0 && rect.height > 0 {
            state.labyrinth = Some(Labyrinth::new(state.box_size, rect.width, rect.height));
        } else {
            state.labyrinth = None;
        }
        Ok(())
    }
}

/// The box state that a press of the given pointer button paints: the
/// primary button marks a box, the secondary button clears it, any other
/// button does nothing.
pub fn box_state_for_button(button: u32) -> (r: Option<BoxState>)
    ensures
        r == (if button == 1 {
            Some(BoxState::Labyrinth)
        } else if button == 3 {
            Some(BoxState::Empty)
        } else {
            None::<BoxState>
        }),
{
    match button {
        1 => Some(BoxState::Labyrinth),
        3 => Some(BoxState::Empty),
        _ => None,
    }
}

/// The box state that a pointer drag paints, from which buttons are held:
/// the primary button marks, else the secondary button clears, else
/// nothing.
pub fn box_state_for_drag(primary_held: bool, secondary_held: bool) -> (r: Option<BoxState>)
    ensures
        r == (if primary_held {
            Some(BoxState::Labyrinth)
        } else if secondary_held {
            Some(BoxState::Empty)
        } else {
            None::<BoxState>
        }),
{
    if primary_held {
        Some(BoxState::Labyrinth)
    } else if secondary_held {
        Some(BoxState::Empty)
    } else {
        None
    }
}

} // verus!
