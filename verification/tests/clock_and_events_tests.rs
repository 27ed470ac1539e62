use game_of_life::clock::{
    decrease_tick, increase_tick, tick_due, time_until_next_tick, DEFAULT_TICK_MS, MIN_TICK_MS,
    TICK_STEP_MS,
};
use game_of_life::events::{producer_handle_input, ClickType, GameEvent, InputEvent, Key};
use game_of_life::geometry::Point;

#[test]
fn configured_intervals() {
    assert_eq!(DEFAULT_TICK_MS, 250);
    assert_eq!(TICK_STEP_MS, 10);
    assert_eq!(MIN_TICK_MS, 30);
}

#[test]
fn time_until_next_tick_values() {
    assert_eq!(time_until_next_tick(0, 250), 250);
    assert_eq!(time_until_next_tick(100, 250), 150);
    assert_eq!(time_until_next_tick(250, 250), 0);
    assert_eq!(time_until_next_tick(900, 250), 0);
}

#[test]
fn tick_due_values() {
    assert!(!tick_due(0, 250));
    assert!(!tick_due(249, 250));
    assert!(tick_due(250, 250));
    assert!(tick_due(1000, 250));
}

#[test]
fn increase_tick_steps_up() {
    assert_eq!(increase_tick(250), 260);
    assert_eq!(increase_tick(0), 10);
    assert_eq!(increase_tick(u64::MAX), u64::MAX);
    assert_eq!(increase_tick(u64::MAX - 3), u64::MAX);
}

#[test]
fn decrease_tick_clamps_at_floor() {
    assert_eq!(decrease_tick(250), 240);
    assert_eq!(decrease_tick(41), 31);
    assert_eq!(decrease_tick(40), 30);
    // One step below the floor would land at 25: clamped instead.
    assert_eq!(decrease_tick(35), 30);
    assert_eq!(decrease_tick(30), 30);
    assert_eq!(decrease_tick(0), 30);
}

#[test]
fn repeated_decreases_never_fall_below_floor() {
    let mut interval = DEFAULT_TICK_MS;
    for _ in 0..100 {
        interval = decrease_tick(interval);
        assert!(interval >= MIN_TICK_MS);
    }
    assert_eq!(interval, MIN_TICK_MS);
}

#[test]
fn plus_key_raises_rate_and_notifies() {
    let (interval, forwarded) = producer_handle_input(250, InputEvent::Key(Key::Char('+')));
    assert_eq!(interval, 260);
    assert_eq!(forwarded, Some(GameEvent::TickSet(260)));
}

#[test]
fn minus_key_lowers_rate_with_floor() {
    let (interval, forwarded) = producer_handle_input(250, InputEvent::Key(Key::Char('-')));
    assert_eq!(interval, 240);
    assert_eq!(forwarded, Some(GameEvent::TickSet(240)));
    let (clamped, forwarded2) = producer_handle_input(35, InputEvent::Key(Key::Char('-')));
    assert_eq!(clamped, 30);
    assert_eq!(forwarded2, Some(GameEvent::TickSet(30)));
}

#[test]
fn other_keys_are_forwarded_unchanged() {
    let (interval, forwarded) = producer_handle_input(250, InputEvent::Key(Key::Enter));
    assert_eq!(interval, 250);
    assert_eq!(forwarded, Some(GameEvent::KeyInput(Key::Enter)));
    let (_, forwarded_q) = producer_handle_input(250, InputEvent::Key(Key::Char('q')));
    assert_eq!(forwarded_q, Some(GameEvent::KeyInput(Key::Char('q'))));
}

#[test]
fn mouse_buttons_become_clicks() {
    let p = Point { x: 5, y: 7 };
    let (interval, forwarded) = producer_handle_input(250, InputEvent::MouseDown(ClickType::Left, p));
    assert_eq!(interval, 250);
    assert_eq!(forwarded, Some(GameEvent::Click(ClickType::Left, p)));
    let (_, forwarded_r) = producer_handle_input(250, InputEvent::MouseDown(ClickType::Right, p));
    assert_eq!(forwarded_r, Some(GameEvent::Click(ClickType::Right, p)));
}

#[test]
fn unrecognized_input_is_dropped() {
    let (interval, forwarded) = producer_handle_input(250, InputEvent::Other);
    assert_eq!(interval, 250);
    assert_eq!(forwarded, None);
}
