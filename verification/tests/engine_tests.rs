use heart_tui::engine::{is_quit_key, loop_step, poll_timeout_ms, Key, CADENCE_MS};

#[test]
fn quit_key_recognized() {
    assert!(is_quit_key(Key::Char('q')));
    assert!(is_quit_key(Key::Esc));
    assert!(!is_quit_key(Key::Char('Q')));
    assert!(!is_quit_key(Key::Char('x')));
    assert!(!is_quit_key(Key::Other));
}

#[test]
fn quit_exits_before_a_cadence_elapses() {
    let o = loop_step(7, Some(Key::Char('q')), 0);
    assert!(o.quit);
    assert_eq!(o.tick, 7);
    assert!(!o.reset_timer);

    let o = loop_step(7, Some(Key::Esc), 0);
    assert!(o.quit);
    assert_eq!(o.tick, 7);
}

#[test]
fn other_input_is_ignored() {
    let o = loop_step(3, Some(Key::Char('x')), 0);
    assert!(!o.quit);
    assert_eq!(o.tick, 3);
    assert!(!o.reset_timer);

    let o = loop_step(3, Some(Key::Other), 0);
    assert!(!o.quit);
    assert_eq!(o.tick, 3);
}

#[test]
fn tick_advances_when_cadence_elapsed() {
    let o = loop_step(3, None, CADENCE_MS);
    assert!(!o.quit);
    assert_eq!(o.tick, 4);
    assert!(o.reset_timer);

    let o = loop_step(3, Some(Key::Char('x')), 200);
    assert!(!o.quit);
    assert_eq!(o.tick, 4);
    assert!(o.reset_timer);
}

#[test]
fn tick_holds_below_cadence() {
    let o = loop_step(3, None, CADENCE_MS - 1);
    assert!(!o.quit);
    assert_eq!(o.tick, 3);
    assert!(!o.reset_timer);
}

#[test]
fn tick_wraps_at_the_largest_value() {
    let o = loop_step(u64::MAX, None, CADENCE_MS);
    assert!(!o.quit);
    assert_eq!(o.tick, 0);
}

#[test]
fn poll_timeout_is_the_cadence_remainder() {
    assert_eq!(poll_timeout_ms(0), CADENCE_MS);
    assert_eq!(poll_timeout_ms(30), CADENCE_MS - 30);
    assert_eq!(poll_timeout_ms(CADENCE_MS), 0);
    assert_eq!(poll_timeout_ms(10_000), 0);
}
