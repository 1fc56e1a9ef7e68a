use system_tool::clock::ClockTime;
use system_tool::state::AppState;
use system_tool::state::Msg;

fn at_second(second: u32) -> ClockTime {
    ClockTime { year: 2024, month: 1, day: 1, hour: 0, minute: 0, second }
}

#[test]
fn three_ticks_advance_the_clock_by_three_seconds() {
    let mut state = AppState::new(at_second(0));
    assert_eq!(state.displayed_time, "01.01.2024 00:00:00");
    for s in 1..=3 {
        state.handle_tick(at_second(s));
    }
    assert_eq!(state.displayed_time, "01.01.2024 00:00:03");
}

#[test]
fn shutdown_denied_is_reported_and_the_app_stays_responsive() {
    let mut state = AppState::new(at_second(0));
    let log = state.handle_request(Msg::Shutdown, Err(String::from("permission denied")));
    assert!(log.is_error);
    assert_eq!(log.text, "Failed to shut down: permission denied");
    assert_eq!(state.displayed_time, "01.01.2024 00:00:00");
    // Later events are still handled normally.
    state.handle_tick(at_second(1));
    assert_eq!(state.displayed_time, "01.01.2024 00:00:01");
    let log = state.handle_request(Msg::Sleep, Ok(()));
    assert!(!log.is_error);
}

#[test]
fn successful_sleep_is_acknowledged_without_state_change() {
    let mut state = AppState::new(at_second(5));
    let log = state.handle_request(Msg::Sleep, Ok(()));
    assert!(!log.is_error);
    assert_eq!(log.text, "Sleeping, bye!");
    assert_eq!(state.displayed_time, "01.01.2024 00:00:05");
}

#[test]
fn events_in_succession_each_observe_the_previous_state() {
    let mut state = AppState::new(at_second(0));
    state.handle_tick(at_second(1));
    assert_eq!(state.displayed_time, "01.01.2024 00:00:01");
    let log = state.handle_request(Msg::Reboot, Err(String::from("busy")));
    assert!(log.is_error);
    assert_eq!(state.displayed_time, "01.01.2024 00:00:01");
    state.handle_tick(at_second(2));
    assert_eq!(state.displayed_time, "01.01.2024 00:00:02");
}
