use system_tool::clock::ClockTime;
use system_tool::state::AppState;
use system_tool::state::Msg;

fn start_state() -> AppState {
    let t = ClockTime { year: 2024, month: 1, day: 1, hour: 0, minute: 0, second: 0 };
    AppState::new(t)
}

#[test]
fn new_state_displays_initial_time() {
    let state = start_state();
    assert_eq!(state.displayed_time, "01.01.2024 00:00:00");
}

#[test]
fn successful_requests_log_one_info_line_each() {
    let cases = [
        (Msg::Shutdown, "Shutting down, bye!"),
        (Msg::Reboot, "Rebooting, bye!"),
        (Msg::Logout, "Logging out, bye!"),
        (Msg::Hibernate, "Hibernating, bye!"),
        (Msg::Sleep, "Sleeping, bye!"),
    ];
    for (msg, expected) in cases {
        let mut state = start_state();
        let before = state.displayed_time.clone();
        let log = state.handle_request(msg, Ok(()));
        assert!(!log.is_error);
        assert_eq!(log.text, expected);
        assert_eq!(state.displayed_time, before);
    }
}

#[test]
fn failed_requests_log_one_error_line_each() {
    let cases = [
        (Msg::Shutdown, "Failed to shut down: no seat"),
        (Msg::Reboot, "Failed to reboot: no seat"),
        (Msg::Logout, "Failed to logout: no seat"),
        (Msg::Hibernate, "Failed to hibernate: no seat"),
        (Msg::Sleep, "Failed to sleep: no seat"),
    ];
    for (msg, expected) in cases {
        let mut state = start_state();
        let before = state.displayed_time.clone();
        let log = state.handle_request(msg, Err(String::from("no seat")));
        assert!(log.is_error);
        assert_eq!(log.text, expected);
        assert_eq!(state.displayed_time, before);
    }
}

#[test]
fn error_line_carries_the_description() {
    let mut state = start_state();
    let log = state.handle_request(Msg::Reboot, Err(String::from("bus unreachable")));
    assert!(log.is_error);
    assert!(log.text.contains("bus unreachable"));
}

#[test]
fn tick_replaces_the_displayed_time() {
    let mut state = start_state();
    let t = ClockTime { year: 2025, month: 6, day: 15, hour: 12, minute: 34, second: 56 };
    state.handle_tick(t);
    assert_eq!(state.displayed_time, "15.06.2025 12:34:56");
}

#[test]
fn refresh_time_yields_a_non_empty_display() {
    let mut state = start_state();
    state.refresh_time();
    assert_eq!(state.displayed_time.chars().count(), 19);
}
