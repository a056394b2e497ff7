use launch_focus::decision::{decide, decide_after_activation, AfterActivation, Outcome};
use launch_focus::window::Window;

fn win(id: u64, app: &str) -> Window {
    Window { id, app: app.to_string(), minimized: false }
}

#[test]
fn cycle_request_with_no_window_is_a_noop() {
    let current = Some(win(3, "Terminal"));
    let windows: Vec<Window> = vec![];
    let out = decide(&current, &windows, &"Terminal".to_string());
    assert_eq!(out, Outcome::NoAction);
}

#[test]
fn cycle_request_with_one_window_is_a_noop() {
    let current = Some(win(3, "Terminal"));
    let windows = vec![win(3, "Terminal")];
    let out = decide(&current, &windows, &"Terminal".to_string());
    assert_eq!(out, Outcome::NoAction);
}

#[test]
fn cycle_selects_the_next_window() {
    let current = Some(win(2, "Terminal"));
    let windows = vec![win(1, "Terminal"), win(2, "Terminal"), win(3, "Terminal")];
    let out = decide(&current, &windows, &"Terminal".to_string());
    assert_eq!(out, Outcome::Cycle { window_id: 3 });
}

#[test]
fn cycle_wraps_around_at_the_last_window() {
    let current = Some(win(3, "Terminal"));
    let windows = vec![win(1, "Terminal"), win(2, "Terminal"), win(3, "Terminal")];
    let out = decide(&current, &windows, &"Terminal".to_string());
    assert_eq!(out, Outcome::Cycle { window_id: 1 });
}

#[test]
fn cycle_uses_the_first_position_of_a_repeated_identifier() {
    let current = Some(win(5, "Terminal"));
    let windows = vec![win(5, "Terminal"), win(5, "Terminal"), win(6, "Terminal")];
    let out = decide(&current, &windows, &"Terminal".to_string());
    assert_eq!(out, Outcome::Cycle { window_id: 5 });
}

#[test]
fn stale_focused_window_makes_a_cycle_request_a_noop() {
    let current = Some(win(7, "Terminal"));
    let windows = vec![win(1, "Terminal"), win(2, "Terminal")];
    let out = decide(&current, &windows, &"Terminal".to_string());
    assert_eq!(out, Outcome::NoAction);
}

#[test]
fn unfocused_target_with_windows_gets_direct_focus_on_the_first() {
    let current = Some(win(3, "Mail"));
    let windows = vec![win(4, "Safari"), win(9, "Safari")];
    let out = decide(&current, &windows, &"Safari".to_string());
    assert_eq!(out, Outcome::DirectFocus { window_id: 4 });
}

#[test]
fn no_focused_window_with_windows_gets_direct_focus_on_the_first() {
    let current: Option<Window> = None;
    let windows = vec![win(8, "Safari")];
    let out = decide(&current, &windows, &"Safari".to_string());
    assert_eq!(out, Outcome::DirectFocus { window_id: 8 });
}

#[test]
fn unfocused_target_without_windows_asks_for_activation() {
    let current = Some(win(3, "Mail"));
    let windows: Vec<Window> = vec![];
    let out = decide(&current, &windows, &"Safari".to_string());
    assert_eq!(out, Outcome::Activate);
}

#[test]
fn no_state_at_all_asks_for_activation() {
    let current: Option<Window> = None;
    let windows: Vec<Window> = vec![];
    let out = decide(&current, &windows, &"Safari".to_string());
    assert_eq!(out, Outcome::Activate);
}

#[test]
fn activation_match_with_fresh_windows_focuses_the_first() {
    let requeried = vec![win(11, "Safari"), win(12, "Safari")];
    let f = decide_after_activation(true, &requeried);
    assert_eq!(f, AfterActivation::DirectFocus { window_id: 11 });
}

#[test]
fn activation_match_without_windows_is_activation_only() {
    let requeried: Vec<Window> = vec![];
    let f = decide_after_activation(true, &requeried);
    assert_eq!(f, AfterActivation::ActivationOnly);
}

#[test]
fn activation_without_match_requests_a_launch() {
    let requeried: Vec<Window> = vec![];
    let f = decide_after_activation(false, &requeried);
    assert_eq!(f, AfterActivation::Launch);
}
