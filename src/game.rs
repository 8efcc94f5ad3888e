use vstd::prelude::*;
use crate::direction::Direction;
use crate::snake::{advance, initial_body, next_head, Point, Snake};

verus! {

/// The movement period, in milliseconds: the snake moves once per period
/// unless input keeps arriving.
pub const TARGET_DELAY_MS: u64 = 1000;

/// A key press, as far as the game tells keys apart.
#[derive(Clone, Copy, Debug, PartialEq, Eq, Structural)]
pub enum Key {
    Esc,
    Char(char),
    Other,
}

/// What the input side of the race yielded.
#[derive(Clone, Copy, Debug, PartialEq, Eq, Structural)]
pub enum InputEvent {
    /// A key was pressed.
    Key(Key),
    /// An event that is not a key press (mouse, resize, focus).
    Other,
    /// The input source reported an error.
    Error,
    /// The input source has no more events.
    Ended,
}

/// Why the game ended.
#[derive(Clone, Copy, Debug, PartialEq, Eq, Structural)]
pub enum StopReason {
    UserQuit,
    OutOfBounds,
    InputStreamEnded,
}

/// What the loop must do after the game has taken an event.
#[derive(Clone, Copy, Debug, PartialEq, Eq, Structural)]
pub enum Action {
    /// Nothing to show; race again.
    Continue,
    /// The snake moved: draw it, then race again.
    Draw,
    /// The input source failed: report it, then race again.
    ReportError,
    /// Leave the loop.
    Stop(StopReason),
}

/// The heading that a character key selects: `u` up, `n` left, `i` right,
/// `e` down; any other character selects none.
pub open spec fn key_direction(c: char) -> Option<Direction> {
    if c == 'u' {
        Some(Direction::Up)
    } else if c == 'n' {
        Some(Direction::Left)
    } else if c == 'i' {
        Some(Direction::Right)
    } else if c == 'e' {
        Some(Direction::Down)
    } else {
        None
    }
}

/// What remains of the movement period after `elapsed_ms`, never below zero.
pub open spec fn remaining_delay_spec(elapsed_ms: u64) -> u64 {
    if elapsed_ms >= TARGET_DELAY_MS {
        0
    } else {
        (TARGET_DELAY_MS - elapsed_ms) as u64
    }
}

/// The action that answers an input event.
pub open spec fn input_action(event: InputEvent) -> Action {
    match event {
        InputEvent::Key(Key::Esc) => Action::Stop(StopReason::UserQuit),
        InputEvent::Error => Action::ReportError,
        InputEvent::Ended => Action::Stop(StopReason::InputStreamEnded),
        _ => Action::Continue,
    }
}

/// The heading after an input event, from the heading before it.
pub open spec fn heading_after(event: InputEvent, heading: Direction) -> Direction {
    match event {
        InputEvent::Key(Key::Char(c)) => match key_direction(c) {
            Some(d) => d,
            None => heading,
        },
        _ => heading,
    }
}

/// Returns the heading that character key `c` selects, if any.
pub fn direction_for_key(c: char) -> (r: Option<Direction>)
    ensures
        r == key_direction(c),
{
    match c {
        'u' => Some(Direction::Up),
        'n' => Some(Direction::Left),
        'i' => Some(Direction::Right),
        'e' => Some(Direction::Down),
        _ => None,
    }
}

/// Returns what remains of the movement period after `elapsed_ms`
/// milliseconds, or 0 once the period has passed.
pub fn remaining_delay(elapsed_ms: u64) -> (r: u64)
    ensures
        r == remaining_delay_spec(elapsed_ms),
{
    TARGET_DELAY_MS.saturating_sub(elapsed_ms)
}

/// The state of a running game: the snake, and how long the next wait for
/// the movement timer lasts.
pub struct Game {
    snake: Snake,
    planned_delay: u64,
}

impl Game {
    /// The snake.
    pub closed spec fn snake_spec(&self) -> Snake {
        self.snake
    }

    /// The next wait for the movement timer, in milliseconds.
    pub closed spec fn delay_spec(&self) -> u64 {
        self.planned_delay
    }

    /// The snake keeps its fixed number of segments.
    pub open spec fn wf(&self) -> bool {
        self.snake_spec().wf()
    }

    /// A game in a room of `room_w` by `room_h` cells: a fresh snake, and a
    /// full period before its first move.
    pub fn new(room_w: u16, room_h: u16) -> (g: Game)
        requires
            room_h >= 4,
        ensures
            g.wf(),
            g.snake_spec().segments() == initial_body(room_w, room_h),
            g.snake_spec().heading() == Direction::Up,
            g.delay_spec() == TARGET_DELAY_MS,
    {
        Game { snake: Snake::new(room_w, room_h), planned_delay: TARGET_DELAY_MS }
    }

    /// The snake.
    pub fn snake(&self) -> (r: &Snake)
        ensures
            *r == self.snake_spec(),
    {
        &self.snake
    }

    /// How long to wait for the movement timer next, in milliseconds.
    pub fn planned_delay(&self) -> (r: u64)
        ensures
            r == self.delay_spec(),
    {
        self.planned_delay
    }

    /// The movement timer won the race: the snake moves and is to be drawn,
    /// and the next wait is a full period; or the move would leave the grid,
    /// the snake stays, and the game stops.
    pub fn on_timer(&mut self) -> (a: Action)
        requires
            old(self).wf(),
        ensures
            final(self).wf(),
            final(self).snake_spec().heading() == old(self).snake_spec().heading(),
            ({
                let old_snake = old(self).snake_spec();
                match next_head(old_snake.head_spec(), old_snake.heading()) {
                    Some(h) => {
                        &&& a == Action::Draw
                        &&& final(self).snake_spec().segments() == advance(old_snake.segments(), h)
                        &&& final(self).delay_spec() == TARGET_DELAY_MS
                    },
                    None => {
                        &&& a == Action::Stop(StopReason::OutOfBounds)
                        &&& final(self).snake_spec().segments() == old_snake.segments()
                        &&& final(self).delay_spec() == old(self).delay_spec()
                    },
                }
            }),
    {
        match self.snake.step() {
            Ok(()) => {
                self.planned_delay = TARGET_DELAY_MS;
                Action::Draw
            },
            Err(_) => Action::Stop(StopReason::OutOfBounds),
        }
    }

    /// The input side won the race, `elapsed_ms` milliseconds into the wait:
    /// a direction key turns the snake, Escape or the end of input stops the
    /// game, an input error is to be reported. The snake never moves here,
    /// and the next wait is what remains of the period.
    pub fn on_input(&mut self, event: InputEvent, elapsed_ms: u64) -> (a: Action)
        requires
            old(self).wf(),
        ensures
            final(self).wf(),
            a == input_action(event),
            final(self).snake_spec().segments() == old(self).snake_spec().segments(),
            final(self).snake_spec().heading() == heading_after(
                event,
                old(self).snake_spec().heading(),
            ),
            final(self).delay_spec() == remaining_delay_spec(elapsed_ms),
    {
        self.planned_delay = remaining_delay(elapsed_ms);
        match event {
            InputEvent::Key(Key::Esc) => Action::Stop(StopReason::UserQuit),
            InputEvent::Key(Key::Char(c)) => {
                match direction_for_key(c) {
                    Some(d) => self.snake.turn(d),
                    None => {},
                }
                Action::Continue
            },
            InputEvent::Key(Key::Other) => Action::Continue,
            InputEvent::Other => Action::Continue,
            InputEvent::Error => Action::ReportError,
            InputEvent::Ended => Action::Stop(StopReason::InputStreamEnded),
        }
    }
}

/// When input wins the race, the snake neither moves nor is drawn, Escape
/// stops the game, and the next wait is what remains of the period: no longer
/// than a full period, and shorter once any time at all has passed.
pub proof fn lemma_input_preempts_tick(event: InputEvent, elapsed_ms: u64)
    ensures
        input_action(event) != Action::Draw,
        event == InputEvent::Key(Key::Esc) ==> input_action(event) == Action::Stop(
            StopReason::UserQuit,
        ),
        remaining_delay_spec(elapsed_ms) <= TARGET_DELAY_MS,
        elapsed_ms > 0 ==> remaining_delay_spec(elapsed_ms) < TARGET_DELAY_MS,
{
}

} // verus!
