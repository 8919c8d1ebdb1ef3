use snake_game::engine::Game;
use snake_game::grid::{Direction, Position};
use snake_game::input::{apply_input, InputEvent};

fn running_game(direction: Direction) -> Game {
    Game {
        snake: vec![Position { x: 5, y: 5 }, Position { x: 4, y: 5 }],
        direction,
        food: Position { x: 10, y: 5 },
        game_over: false,
        width: 20,
        height: 10,
    }
}

#[test]
fn requesting_current_direction_changes_nothing() {
    let mut g = running_game(Direction::Right);
    g.change_direction(Direction::Right);
    assert_eq!(g.direction, Direction::Right);
    assert!(!g.game_over);
}

#[test]
fn reversal_is_ignored_others_succeed() {
    let mut g = running_game(Direction::Right);
    g.change_direction(Direction::Left);
    assert_eq!(g.direction, Direction::Right);
    g.change_direction(Direction::Up);
    assert_eq!(g.direction, Direction::Up);

    let mut h = running_game(Direction::Right);
    h.change_direction(Direction::Down);
    assert_eq!(h.direction, Direction::Down);
}

#[test]
fn reversal_guard_holds_for_every_heading() {
    let pairs = [
        (Direction::Up, Direction::Down),
        (Direction::Down, Direction::Up),
        (Direction::Left, Direction::Right),
        (Direction::Right, Direction::Left),
    ];
    for (current, reverse) in pairs {
        let mut g = running_game(current);
        g.change_direction(reverse);
        assert_eq!(g.direction, current);
    }
}

#[test]
fn guard_uses_the_direction_current_at_each_call() {
    // Two requests between ticks: the second is judged against the first
    // request's outcome, not the heading at tick start.
    let mut g = running_game(Direction::Right);
    g.change_direction(Direction::Up);
    g.change_direction(Direction::Down);
    assert_eq!(g.direction, Direction::Up);

    let mut h = running_game(Direction::Right);
    h.change_direction(Direction::Up);
    h.change_direction(Direction::Left);
    assert_eq!(h.direction, Direction::Left);
}

#[test]
fn input_events_map_to_direction_requests() {
    let mut g = running_game(Direction::Right);
    apply_input(&mut g, InputEvent::Up);
    assert_eq!(g.direction, Direction::Up);
    assert!(!g.game_over);

    apply_input(&mut g, InputEvent::Down);
    assert_eq!(g.direction, Direction::Up);

    apply_input(&mut g, InputEvent::Left);
    assert_eq!(g.direction, Direction::Left);
}

#[test]
fn quit_event_ends_the_round() {
    let mut g = running_game(Direction::Right);
    apply_input(&mut g, InputEvent::Quit);
    assert!(g.game_over);
    assert_eq!(g.direction, Direction::Right);
    assert_eq!(g.snake, vec![Position { x: 5, y: 5 }, Position { x: 4, y: 5 }]);
}
