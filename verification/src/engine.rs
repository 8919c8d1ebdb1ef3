//! The game engine: the round state, the per-tick update rule, food
//! placement, and the direction-change policy with its reversal guard.

use crate::grid::{adjacent, in_interior, is_opposite, lemma_step_adjacent, opposite, step,
    step_spec, Direction, Position};
use crate::rng::random_in_range;
use vstd::prelude::*;

verus! {

/// One round of the game: the snake body (head first), the current
/// heading, the food cell, the terminal flag, and the board dimensions.
#[derive(Debug)]
pub struct Game {
    pub snake: Vec<Position>,
    pub direction: Direction,
    pub food: Position,
    pub game_over: bool,
    pub width: u16,
    pub height: u16,
}

/// Board dimensions rejected at construction.
#[derive(Clone, Copy, PartialEq, Eq, Structural, Debug)]
pub enum ConfigError {
    BoardTooSmall,
}

/// A board is playable when its interior holds at least two cells — one
/// for the snake's starting segment and one for the food beside it.
pub open spec fn valid_config(width: u16, height: u16) -> bool {
    3 <= width && 3 <= height && (4 <= width || 4 <= height)
}

/// Some interior cell is free of the snake, so food can be placed.
pub open spec fn has_free_cell(snake: Seq<Position>, width: u16, height: u16) -> bool {
    exists|p: Position| in_interior(p, width, height) && !snake.contains(p)
}

/// How many random draws food placement makes before it falls back to a
/// deterministic sweep of the interior.
pub const FOOD_SAMPLE_TRIES: u32 = 10000;

impl Game {
    /// What every engine operation preserves: a playable board; a snake of
    /// at least one segment, all segments distinct, strictly interior and
    /// pairwise adjacent head to tail; food strictly interior and on no
    /// snake segment.
    pub open spec fn wf(self) -> bool {
        &&& valid_config(self.width, self.height)
        &&& 1 <= self.snake@.len()
        &&& (forall|i: int|
            0 <= i < self.snake@.len() ==> in_interior(
                #[trigger] self.snake@[i],
                self.width,
                self.height,
            ))
        &&& (forall|i: int, j: int|
            0 <= i < j < self.snake@.len() ==> self.snake@[i] != self.snake@[j])
        &&& (forall|i: int|
            0 <= i && i + 1 < self.snake@.len() ==> adjacent(
                #[trigger] self.snake@[i],
                self.snake@[i + 1],
            ))
        &&& in_interior(self.food, self.width, self.height)
        &&& !self.snake@.contains(self.food)
    }

    /// The cell the head would reach on the next step.
    pub open spec fn next_head(self) -> Position {
        step_spec(self.snake@[0], self.direction)
    }

    /// The next step ends the round: the target cell lies on or beyond the
    /// border, or on a current segment — the tail cell included, although
    /// it is about to be vacated.
    pub open spec fn next_collides(self) -> bool {
        !in_interior(self.next_head(), self.width, self.height) || self.snake@.contains(
            self.next_head(),
        )
    }

    /// Start the reference round: a one-segment snake at (5, 5) on a
    /// 20 by 10 board, heading right, food in a free interior cell, and
    /// the round running.
    pub fn new() -> (g: Game)
        ensures
            g.wf(),
            g.width == 20 && g.height == 10,
            g.snake@ == seq![Position { x: 5, y: 5 }],
            g.direction == Direction::Right,
            !g.game_over,
    {
        let mut snake: Vec<Position> = Vec::new();
        snake.push(Position { x: 5, y: 5 });
        proof {
            assert(in_interior(Position { x: 1, y: 1 }, 20, 10) && !snake@.contains(
                Position { x: 1, y: 1 },
            ));
        }
        let food = Game::generate_food(&snake, 20, 10);
        let g = Game {
            snake,
            direction: Direction::Right,
            food,
            game_over: false,
            width: 20,
            height: 10,
        };
        proof {
            assert(g.snake@ =~= seq![Position { x: 5, y: 5 }]);
        }
        g
    }

    /// Build a round on a `width` by `height` board: one snake segment at
    /// the board's centre, heading right, food elsewhere in the interior,
    /// and the round running. Boards whose interior cannot hold both the
    /// snake and the food are rejected.
    pub fn initialize(width: u16, height: u16) -> (r: Result<Game, ConfigError>)
        ensures
            r is Ok <==> valid_config(width, height),
            r matches Ok(g) ==> {
                &&& g.wf()
                &&& g.width == width && g.height == height
                &&& g.snake@ == seq![
                    Position { x: (width / 2) as u16, y: (height / 2) as u16 },
                ]
                &&& g.direction == Direction::Right
                &&& !g.game_over
            },
    {
        if width < 3 || height < 3 || (width < 4 && height < 4) {
            return Err(ConfigError::BoardTooSmall);
        }
        let start = Position { x: width / 2, y: height / 2 };
        let mut snake: Vec<Position> = Vec::new();
        snake.push(start);
        proof {
            if width >= 4 {
                let wx: u16 = if start.x == 1 {
                    2
                } else {
                    1
                };
                let wit = Position { x: wx, y: start.y };
                assert(in_interior(wit, width, height) && !snake@.contains(wit));
            } else {
                let wy: u16 = if start.y == 1 {
                    2
                } else {
                    1
                };
                let wit = Position { x: start.x, y: wy };
                assert(in_interior(wit, width, height) && !snake@.contains(wit));
            }
        }
        let food = Game::generate_food(&snake, width, height);
        let g = Game {
            snake,
            direction: Direction::Right,
            food,
            game_over: false,
            width,
            height,
        };
        proof {
            assert(g.snake@ =~= seq![start]);
        }
        Ok(g)
    }

    /// Sample interior cells uniformly at random, resampling while the
    /// candidate lies on a snake segment; after `FOOD_SAMPLE_TRIES` misses
    /// — astronomically unlikely while the board has room — fall back to a
    /// deterministic sweep for the first free interior cell. A snake that
    /// filled the whole interior would leave nothing to place, so a free
    /// cell is required; the resampling would otherwise never finish.
    pub fn generate_food(snake: &Vec<Position>, width: u16, height: u16) -> (r: Position)
        requires
            3 <= width,
            3 <= height,
            has_free_cell(snake@, width, height),
        ensures
            in_interior(r, width, height),
            !snake@.contains(r),
    {
        let mut tries: u32 = 0;
        while tries < FOOD_SAMPLE_TRIES
            invariant
                3 <= width,
                3 <= height,
            decreases FOOD_SAMPLE_TRIES - tries,
        {
            let x: u16 = random_in_range(1, width - 1);
            let y: u16 = random_in_range(1, height - 1);
            let pos = Position { x, y };
            if !contains_position(snake, pos) {
                return pos;
            }
            tries = tries + 1;
        }
        let mut y: u16 = 1;
        while y < height - 1
            invariant
                3 <= width,
                3 <= height,
                has_free_cell(snake@, width, height),
                1 <= y <= height - 1,
                forall|p: Position|
                    in_interior(p, width, height) && p.y < y ==> #[trigger] snake@.contains(p),
            decreases height - 1 - y,
        {
            let mut x: u16 = 1;
            while x < width - 1
                invariant
                    3 <= width,
                    3 <= height,
                    1 <= y < height - 1,
                    1 <= x <= width - 1,
                    forall|p: Position|
                        in_interior(p, width, height) && p.y < y ==> #[trigger] snake@.contains(p),
                    forall|p: Position|
                        in_interior(p, width, height) && p.y == y && p.x < x
                            ==> #[trigger] snake@.contains(p),
                decreases width - 1 - x,
            {
                let pos = Position { x, y };
                if !contains_position(snake, pos) {
                    return pos;
                }
                x = x + 1;
            }
            y = y + 1;
        }
        proof {
            let w = choose|p: Position|
                in_interior(p, width, height) && !snake@.contains(p);
            assert(snake@.contains(w));
        }
        Position { x: 1, y: 1 }
    }

    /// One simulation step — the tick rule. Nothing happens on a round
    /// already over. Otherwise the head steps one cell along the current
    /// heading: if the target cell lies on or beyond the border or on any
    /// current segment, the round ends and nothing else changes; if it
    /// holds the food, the snake grows by that cell and fresh food is
    /// placed; otherwise the snake advances by one cell, tail dropped.
    ///
    /// The one carved-out corner: a growth step that would leave no free
    /// interior cell gives food placement nowhere to go (its resampling
    /// would never finish), so such states are excluded up front rather
    /// than ended with invented win semantics.
    pub fn update(&mut self)
        requires
            old(self).wf(),
            !old(self).game_over && !old(self).next_collides() && old(self).next_head() == old(
                self,
            ).food ==> has_free_cell(
                seq![old(self).next_head()] + old(self).snake@,
                old(self).width,
                old(self).height,
            ),
        ensures
            final(self).wf(),
            final(self).width == old(self).width,
            final(self).height == old(self).height,
            final(self).direction == old(self).direction,
            old(self).game_over ==> *final(self) == *old(self),
            !old(self).game_over && old(self).next_collides() ==> {
                &&& final(self).game_over
                &&& final(self).snake@ == old(self).snake@
                &&& final(self).food == old(self).food
            },
            !old(self).game_over && !old(self).next_collides() ==> !final(self).game_over,
            !old(self).game_over && !old(self).next_collides() && old(self).next_head() == old(
                self,
            ).food ==> final(self).snake@ == seq![old(self).next_head()] + old(self).snake@,
            !old(self).game_over && !old(self).next_collides() && old(self).next_head() != old(
                self,
            ).food ==> {
                &&& final(self).snake@ == seq![old(self).next_head()] + old(
                    self,
                ).snake@.drop_last()
                &&& final(self).food == old(self).food
            },
    {
        if self.game_over {
            return;
        }
        let head = self.snake[0];
        let new_head = step(head, self.direction);
        if new_head.x == 0 || new_head.y == 0 || new_head.x >= self.width - 1 || new_head.y
            >= self.height - 1 || contains_position(&self.snake, new_head) {
            self.game_over = true;
            return;
        }
        let ghost old_snake = self.snake@;
        self.snake.insert(0, new_head);
        proof {
            assert(self.snake@ =~= seq![new_head] + old_snake);
            lemma_step_adjacent(head, self.direction);
        }
        if new_head == self.food {
            self.food = Game::generate_food(&self.snake, self.width, self.height);
        } else {
            let ghost grown = self.snake@;
            self.snake.pop();
            proof {
                assert(self.snake@ =~= grown.drop_last());
                assert(forall|k: int|
                    0 <= k < self.snake@.len() ==> #[trigger] self.snake@[k] == grown[k]);
                assert(!self.snake@.contains(self.food));
            }
        }
    }

    /// Apply a direction-change request: a request for the exact opposite
    /// of the current heading would drive the head into the second segment,
    /// so it is silently ignored — a defined no-op, not a failure. Any
    /// other request replaces the heading at once. Nothing moves until the
    /// next tick, and requesting the current heading changes nothing.
    pub fn change_direction(&mut self, new_direction: Direction)
        requires
            old(self).wf(),
        ensures
            final(self).wf(),
            final(self).snake@ == old(self).snake@,
            final(self).food == old(self).food,
            final(self).game_over == old(self).game_over,
            final(self).width == old(self).width,
            final(self).height == old(self).height,
            opposite(old(self).direction) == new_direction ==> final(self).direction == old(
                self,
            ).direction,
            opposite(old(self).direction) != new_direction ==> final(self).direction
                == new_direction,
            new_direction == old(self).direction ==> final(self).direction == old(self).direction,
    {
        if !is_opposite(self.direction, new_direction) {
            self.direction = new_direction;
        }
    }

    /// End the round at the player's request: the terminal flag is set and
    /// nothing else changes.
    pub fn request_quit(&mut self)
        requires
            old(self).wf(),
        ensures
            final(self).wf(),
            final(self).game_over,
            final(self).snake@ == old(self).snake@,
            final(self).food == old(self).food,
            final(self).direction == old(self).direction,
            final(self).width == old(self).width,
            final(self).height == old(self).height,
    {
        self.game_over = true;
    }
}

/// Linear scan for `p` among the stored positions.
pub fn contains_position(v: &Vec<Position>, p: Position) -> (r: bool)
    ensures
        r == v@.contains(p),
{
    let mut i: usize = 0;
    while i < v.len()
        invariant
            i <= v@.len(),
            forall|k: int| 0 <= k < i ==> v@[k] != p,
        decreases v@.len() - i,
    {
        if v[i] == p {
            return true;
        }
        i = i + 1;
    }
    false
}

/// A well-formed state's snake holds no duplicate position. Every
/// engine operation requires and re-establishes well-formedness, so this
/// holds of every reachable state.
pub proof fn lemma_snake_no_duplicates(g: Game)
    requires
        g.wf(),
    ensures
        forall|i: int, j: int| 0 <= i < j < g.snake@.len() ==> g.snake@[i] != g.snake@[j],
{
}

/// In a well-formed state every snake segment and the food lie
/// strictly inside the border. Every engine operation requires and
/// re-establishes well-formedness, so this holds of every reachable state.
pub proof fn lemma_occupancy_interior(g: Game)
    requires
        g.wf(),
    ensures
        forall|i: int|
            0 <= i < g.snake@.len() ==> in_interior(#[trigger] g.snake@[i], g.width, g.height),
        in_interior(g.food, g.width, g.height),
{
}

} // verus!
