//! A terminal snake game: the snake's movement rules and the game loop's
//! decisions, with their contracts.
mod direction;
mod game;
mod snake;

pub use direction::{lemma_delta_bijection, unit_vectors, Direction};
pub use game::{
    direction_for_key, heading_after, input_action, key_direction, lemma_input_preempts_tick,
    remaining_delay, remaining_delay_spec, Action, Game, InputEvent, Key, StopReason,
    TARGET_DELAY_MS,
};
pub use snake::{
    advance, initial_body, lemma_turn_down_then_step, next_head, shift, OutOfBounds, Point,
    Snake, SNAKE_LEN,
};
