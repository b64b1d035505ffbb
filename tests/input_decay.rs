use home_world_derby::input::{key_pressed, InputState, InputTracker, TickData};

fn tracker_with(last: InputState, current: InputState) -> InputTracker {
    let mut t = InputTracker::new();
    t.last_tick.input_state = last;
    t.current_tick.input_state = current;
    t
}

#[test]
fn new_tick_is_idle() {
    let d = TickData::new();
    assert_eq!(d.delta_ms, 0);
    assert_eq!(d.input_state, InputState::Released);
}

#[test]
fn just_pressed_decays_to_pressed() {
    let mut t = tracker_with(InputState::JustPressed, InputState::JustPressed);
    let d = t.update_current_tick_data(16);
    assert_eq!(d.input_state, InputState::Pressed);
    assert_eq!(d.delta_ms, 16);
    assert_eq!(t.current_tick, d);
}

#[test]
fn just_released_decays_to_released() {
    let mut t = tracker_with(InputState::JustReleased, InputState::JustReleased);
    assert_eq!(t.update_current_tick_data(5).input_state, InputState::Released);
}

#[test]
fn fresh_edge_is_seen_for_one_tick() {
    let mut t = tracker_with(InputState::Released, InputState::Released);
    t.key_down_event();
    assert_eq!(t.update_current_tick_data(16).input_state, InputState::JustPressed);
    t.finish_tick();
    assert_eq!(t.last_tick.input_state, InputState::JustPressed);
    assert_eq!(t.update_current_tick_data(16).input_state, InputState::Pressed);
}

#[test]
fn other_combinations_pass_through() {
    let mut t = tracker_with(InputState::Pressed, InputState::JustReleased);
    assert_eq!(t.update_current_tick_data(1).input_state, InputState::JustReleased);
    let mut t = tracker_with(InputState::JustPressed, InputState::JustReleased);
    assert_eq!(t.update_current_tick_data(1).input_state, InputState::JustReleased);
    let mut t = tracker_with(InputState::Released, InputState::Pressed);
    assert_eq!(t.update_current_tick_data(1).input_state, InputState::Pressed);
}

#[test]
fn decay_reaches_a_fixed_point() {
    let mut t = tracker_with(InputState::JustPressed, InputState::JustPressed);
    let first = t.update_current_tick_data(16);
    assert_eq!(first.input_state, InputState::Pressed);
    let again = t.update_current_tick_data(16);
    assert_eq!(again.input_state, InputState::Pressed);
    t.finish_tick();
    for _ in 0..3 {
        assert_eq!(t.update_current_tick_data(16).input_state, InputState::Pressed);
        t.finish_tick();
    }
}

#[test]
fn key_repeat_does_not_restart_press() {
    let mut t = tracker_with(InputState::Pressed, InputState::Pressed);
    t.key_down_event();
    assert_eq!(t.current_tick.input_state, InputState::Pressed);
    let mut t = tracker_with(InputState::Released, InputState::JustReleased);
    t.key_down_event();
    assert_eq!(t.current_tick.input_state, InputState::JustPressed);
}

#[test]
fn key_up_sets_just_released() {
    let mut t = tracker_with(InputState::Pressed, InputState::Pressed);
    t.key_up_event();
    assert_eq!(t.current_tick.input_state, InputState::JustReleased);
    assert_eq!(t.last_tick.input_state, InputState::Pressed);
}

#[test]
fn held_states() {
    assert!(key_pressed(&InputState::Pressed));
    assert!(key_pressed(&InputState::JustReleased));
    assert!(!key_pressed(&InputState::JustPressed));
    assert!(!key_pressed(&InputState::Released));
}
