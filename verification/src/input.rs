//! The input mapper: discrete input symbols become direction-change
//! requests under the reversal guard, or a quit request. Unrecognised
//! keys never reach the engine — the driver drops them before mapping.

use crate::engine::Game;
use crate::grid::{opposite, Direction};
use vstd::prelude::*;

verus! {

/// A discrete input symbol the driver recognised.
#[derive(Clone, Copy, PartialEq, Eq, Structural, Debug)]
pub enum InputEvent {
    Up,
    Down,
    Left,
    Right,
    Quit,
}

/// The heading an event asks for; a quit request asks for none.
pub open spec fn requested_direction(ev: InputEvent) -> Option<Direction> {
    match ev {
        InputEvent::Up => Some(Direction::Up),
        InputEvent::Down => Some(Direction::Down),
        InputEvent::Left => Some(Direction::Left),
        InputEvent::Right => Some(Direction::Right),
        InputEvent::Quit => None,
    }
}

/// Feed one input event to the engine: a direction event becomes a
/// direction-change request, subject to the reversal guard against the
/// heading current at this very call; a quit event ends the round. The
/// snake, the food and the board never move here.
pub fn apply_input(game: &mut Game, ev: InputEvent)
    requires
        old(game).wf(),
    ensures
        final(game).wf(),
        final(game).snake@ == old(game).snake@,
        final(game).food == old(game).food,
        final(game).width == old(game).width,
        final(game).height == old(game).height,
        ev == InputEvent::Quit ==> final(game).game_over && final(game).direction == old(
            game,
        ).direction,
        ev != InputEvent::Quit ==> final(game).game_over == old(game).game_over,
        requested_direction(ev) matches Some(d) ==> {
            &&& opposite(old(game).direction) == d ==> final(game).direction == old(
                game,
            ).direction
            &&& opposite(old(game).direction) != d ==> final(game).direction == d
        },
{
    match ev {
        InputEvent::Up => game.change_direction(Direction::Up),
        InputEvent::Down => game.change_direction(Direction::Down),
        InputEvent::Left => game.change_direction(Direction::Left),
        InputEvent::Right => game.change_direction(Direction::Right),
        InputEvent::Quit => game.request_quit(),
    }
}

} // verus!
