use snake::{
    direction_for_key, remaining_delay, Action, Direction, Game, InputEvent, Key, OutOfBounds,
    Point, Snake, StopReason, TARGET_DELAY_MS,
};

fn p(x: u16, y: u16) -> Point {
    Point { x, y }
}

#[test]
fn delta_is_a_unit_vector_per_direction() {
    let all = [Direction::Up, Direction::Right, Direction::Down, Direction::Left];
    let deltas: Vec<(i16, i16)> = all.iter().map(|d| d.get_delta()).collect();
    assert_eq!(deltas, vec![(0, -1), (1, 0), (0, 1), (-1, 0)]);
    for i in 0..4 {
        for j in 0..4 {
            assert_eq!(deltas[i] == deltas[j], i == j);
        }
    }
}

#[test]
fn new_snake_in_ten_by_twenty_room() {
    let s = Snake::new(10, 20);
    assert_eq!(s.body(), vec![p(5, 16), p(5, 17), p(5, 18)]);
    assert_eq!(s.head(), p(5, 16));
    assert_eq!(s.direction(), Direction::Up);
}

#[test]
fn step_on_fresh_snake_moves_up() {
    let mut s = Snake::new(10, 20);
    assert_eq!(s.step(), Ok(()));
    assert_eq!(s.body(), vec![p(5, 15), p(5, 16), p(5, 17)]);
    assert_eq!(s.body().len(), 3);
    assert!(!s.body().contains(&p(5, 18)));
}

#[test]
fn step_left_at_column_zero_fails_and_keeps_body() {
    let mut s = Snake::new(2, 20);
    s.turn(Direction::Left);
    assert_eq!(s.step(), Ok(()));
    assert_eq!(s.head(), p(0, 16));
    let before = s.body();
    assert_eq!(s.step(), Err(OutOfBounds));
    assert_eq!(s.body(), before);
    assert_eq!(s.direction(), Direction::Left);
}

#[test]
fn step_up_at_row_zero_fails() {
    let mut s = Snake::new(10, 4);
    assert_eq!(s.head(), p(5, 0));
    assert_eq!(s.step(), Err(OutOfBounds));
    assert_eq!(s.body(), vec![p(5, 0), p(5, 1), p(5, 2)]);
}

#[test]
fn turn_down_then_step_reverses_onto_second_segment() {
    let mut s = Snake::new(10, 20);
    s.turn(Direction::Down);
    assert_eq!(s.body(), vec![p(5, 16), p(5, 17), p(5, 18)]);
    assert_eq!(s.step(), Ok(()));
    assert_eq!(s.head(), p(5, 17));
    assert_eq!(s.body(), vec![p(5, 17), p(5, 16), p(5, 17)]);
}

#[test]
fn no_check_at_bottom_or_right_edge() {
    let mut s = Snake::new(10, 4);
    s.turn(Direction::Down);
    for _ in 0..5 {
        assert_eq!(s.step(), Ok(()));
    }
    assert_eq!(s.head(), p(5, 5));
    s.turn(Direction::Right);
    for _ in 0..10 {
        assert_eq!(s.step(), Ok(()));
    }
    assert_eq!(s.head(), p(15, 5));
}

#[test]
fn coordinate_wraps_past_u16_max() {
    let mut s = Snake::new(u16::MAX, 20);
    assert_eq!(s.head(), p(32767, 16));
    s.turn(Direction::Right);
    for _ in 0..32768u32 {
        assert_eq!(s.step(), Ok(()));
    }
    assert_eq!(s.head(), p(u16::MAX, 16));
    assert_eq!(s.step(), Ok(()));
    assert_eq!(s.head(), p(0, 16));
}

#[test]
fn quit_key_preempts_tick() {
    let mut g = Game::new(10, 20);
    let before = g.snake().body();
    let a = g.on_input(InputEvent::Key(Key::Esc), 250);
    assert_eq!(a, Action::Stop(StopReason::UserQuit));
    assert_eq!(g.snake().body(), before);
    assert_eq!(g.planned_delay(), 750);
    assert!(g.planned_delay() < TARGET_DELAY_MS);
}

#[test]
fn minimal_grid_first_tick_goes_out_of_bounds() {
    let mut g = Game::new(10, 4);
    assert_eq!(g.planned_delay(), 1000);
    assert_eq!(g.on_timer(), Action::Stop(StopReason::OutOfBounds));
    assert_eq!(g.snake().body(), vec![p(5, 0), p(5, 1), p(5, 2)]);
}

#[test]
fn grid_of_height_five_first_tick_moves() {
    let mut g = Game::new(10, 5);
    assert_eq!(g.on_timer(), Action::Draw);
    assert_eq!(g.snake().body(), vec![p(5, 0), p(5, 1), p(5, 2)]);
    assert_eq!(g.on_timer(), Action::Stop(StopReason::OutOfBounds));
}

#[test]
fn timer_resets_delay_after_input() {
    let mut g = Game::new(10, 20);
    assert_eq!(g.on_input(InputEvent::Key(Key::Char('x')), 400), Action::Continue);
    assert_eq!(g.planned_delay(), 600);
    assert_eq!(g.on_timer(), Action::Draw);
    assert_eq!(g.planned_delay(), 1000);
    assert_eq!(g.snake().head(), p(5, 15));
}

#[test]
fn direction_keys_turn_the_snake() {
    let mut g = Game::new(10, 20);
    assert_eq!(g.on_input(InputEvent::Key(Key::Char('i')), 10), Action::Continue);
    assert_eq!(g.snake().direction(), Direction::Right);
    assert_eq!(g.on_input(InputEvent::Key(Key::Char('e')), 20), Action::Continue);
    assert_eq!(g.snake().direction(), Direction::Down);
    assert_eq!(g.on_input(InputEvent::Key(Key::Char('n')), 30), Action::Continue);
    assert_eq!(g.snake().direction(), Direction::Left);
    assert_eq!(g.on_input(InputEvent::Key(Key::Char('u')), 40), Action::Continue);
    assert_eq!(g.snake().direction(), Direction::Up);
    assert_eq!(g.on_input(InputEvent::Key(Key::Char('w')), 50), Action::Continue);
    assert_eq!(g.on_input(InputEvent::Key(Key::Other), 60), Action::Continue);
    assert_eq!(g.on_input(InputEvent::Other, 70), Action::Continue);
    assert_eq!(g.snake().direction(), Direction::Up);
    assert_eq!(g.snake().body(), vec![p(5, 16), p(5, 17), p(5, 18)]);
}

#[test]
fn key_mapping() {
    assert_eq!(direction_for_key('u'), Some(Direction::Up));
    assert_eq!(direction_for_key('n'), Some(Direction::Left));
    assert_eq!(direction_for_key('i'), Some(Direction::Right));
    assert_eq!(direction_for_key('e'), Some(Direction::Down));
    assert_eq!(direction_for_key('w'), None);
    assert_eq!(direction_for_key('U'), None);
}

#[test]
fn input_error_and_end() {
    let mut g = Game::new(10, 20);
    assert_eq!(g.on_input(InputEvent::Error, 100), Action::ReportError);
    assert_eq!(g.planned_delay(), 900);
    assert_eq!(g.on_input(InputEvent::Ended, 1), Action::Stop(StopReason::InputStreamEnded));
}

#[test]
fn remaining_delay_values() {
    assert_eq!(remaining_delay(0), 1000);
    assert_eq!(remaining_delay(1), 999);
    assert_eq!(remaining_delay(999), 1);
    assert_eq!(remaining_delay(1000), 0);
    assert_eq!(remaining_delay(5000), 0);
    assert_eq!(remaining_delay(u64::MAX), 0);
}
