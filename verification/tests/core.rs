use sensor_dash::poller::{apply_fetch, decide_wake, decode_outcome, quit_requested, wake_step, FetchError, WakeAction};
use sensor_dash::render::{countdown_remaining, display_rows, refresh_tick, row_is_new};
use sensor_dash::signal::RefreshSignal;
use sensor_dash::state::{AppState, SensorData};

fn reading(mac: &str) -> SensorData {
    SensorData {
        timestamp: "2024-06-01 12:00:00".to_string(),
        mac: mac.to_string(),
        temperature: 2350,
        moisture: 300,
        light: 15000,
        conductivity: 120,
    }
}

#[test]
fn commit_growth_updates_both_fields_together() {
    let mut state = AppState::new();
    assert_eq!(state.data.len(), 0);
    assert_eq!(state.last_update_time, None);
    assert_eq!(state.previous_data_len, 0);

    state.commit(vec![reading("a"), reading("b")], 5000);
    assert_eq!(state.data.len(), 2);
    assert_eq!(state.previous_data_len, 0);
    assert_eq!(state.last_update_time, Some(5000));

    state.commit(vec![reading("a"), reading("b"), reading("c")], 9000);
    assert_eq!(state.data.len(), 3);
    assert_eq!(state.previous_data_len, 2);
    assert_eq!(state.last_update_time, Some(9000));
}

#[test]
fn commit_same_size_keeps_highlight_clock() {
    let mut state = AppState::new();
    state.commit(vec![reading("a"), reading("b")], 5000);
    state.commit(vec![reading("x"), reading("y")], 8000);
    assert_eq!(state.data.len(), 2);
    assert_eq!(state.data[0].mac, "x");
    assert_eq!(state.previous_data_len, 0);
    assert_eq!(state.last_update_time, Some(5000));
}

#[test]
fn commit_shrink_keeps_highlight_clock() {
    let mut state = AppState::new();
    state.commit(vec![reading("a"), reading("b")], 5000);
    state.commit(vec![reading("z")], 8000);
    assert_eq!(state.data.len(), 1);
    assert_eq!(state.previous_data_len, 0);
    assert_eq!(state.last_update_time, Some(5000));
}

#[test]
fn empty_fetch_commits_empty_and_keeps_priors() {
    let mut state = AppState::new();
    apply_fetch(&mut state, Ok(vec![]), 4000);
    assert_eq!(state.data.len(), 0);
    assert_eq!(state.previous_data_len, 0);
    assert_eq!(state.last_update_time, None);
    let rows = display_rows(&state, 4100, 3000);
    assert_eq!(rows.len(), 0);
}

#[test]
fn failed_fetch_leaves_state_untouched() {
    let mut state = AppState::new();
    state.commit(vec![reading("a")], 5000);
    apply_fetch(&mut state, Err(FetchError::Transport), 9000);
    assert_eq!(state.data.len(), 1);
    assert_eq!(state.previous_data_len, 0);
    assert_eq!(state.last_update_time, Some(5000));
    apply_fetch(&mut state, Err(FetchError::Decode), 9500);
    assert_eq!(state.data.len(), 1);
    assert_eq!(state.last_update_time, Some(5000));
}

#[test]
fn missing_batch_classifies_as_decode_failure() {
    assert!(matches!(decode_outcome(None), Err(FetchError::Decode)));
    let batch = vec![reading("a")];
    match decode_outcome(Some(batch)) {
        Ok(b) => {
            assert_eq!(b.len(), 1);
            assert_eq!(b[0].mac, "a");
        }
        Err(_) => panic!("a present batch is a successful outcome"),
    }
}

#[test]
fn signal_consumed_at_most_once_per_raise() {
    let mut signal = RefreshSignal::new();
    assert!(!signal.consume());
    signal.raise();
    assert!(signal.consume());
    assert!(!signal.consume());
    signal.raise();
    signal.raise();
    assert!(signal.consume());
    assert!(!signal.consume());
}

#[test]
fn wake_ties_break_toward_timer() {
    assert!(matches!(decide_wake(true, true), WakeAction::FetchTimer));
    assert!(matches!(decide_wake(true, false), WakeAction::FetchTimer));
    assert!(matches!(decide_wake(false, true), WakeAction::FetchManual));
    assert!(matches!(decide_wake(false, false), WakeAction::Sleep));
}

#[test]
fn timer_winning_a_tie_keeps_the_raise_pending() {
    let mut signal = RefreshSignal::new();
    signal.raise();
    // timer due and a raise pending: the timer wins, the raise stays
    assert!(matches!(wake_step(&mut signal, true), WakeAction::FetchTimer));
    // the next wake without a due timer serves the kept raise, once
    assert!(matches!(wake_step(&mut signal, false), WakeAction::FetchManual));
    assert!(matches!(wake_step(&mut signal, false), WakeAction::Sleep));
}

#[test]
fn only_the_quit_key_ends_the_loop() {
    assert!(quit_requested(Some('q')));
    assert!(!quit_requested(Some('Q')));
    assert!(!quit_requested(Some('x')));
    assert!(!quit_requested(None));
}

#[test]
fn countdown_past_interval_shows_full_interval_and_raises() {
    // interval 10 s, last growth 12 s ago
    let mut signal = RefreshSignal::new();
    let (remaining, expired) = countdown_remaining(Some(0), 12000, 10000);
    assert_eq!(remaining, 10000);
    assert!(expired);
    let shown = refresh_tick(&mut signal, Some(0), 12000, 10000);
    assert_eq!(shown, 10000);
    assert!(signal.consume());
}

#[test]
fn countdown_counts_down_while_running() {
    let mut signal = RefreshSignal::new();
    let (remaining, expired) = countdown_remaining(Some(4000), 6000, 10000);
    assert_eq!(remaining, 8000);
    assert!(!expired);
    let shown = refresh_tick(&mut signal, Some(4000), 6000, 10000);
    assert_eq!(shown, 8000);
    assert!(!signal.consume());
}

#[test]
fn countdown_before_first_growth_is_due() {
    let (remaining, expired) = countdown_remaining(None, 123456, 10000);
    assert_eq!(remaining, 10000);
    assert!(expired);
}

#[test]
fn row_highlight_needs_index_and_window() {
    // grown at 100, window 3000
    assert!(row_is_new(2, 2, Some(100), 200, 3000));
    assert!(row_is_new(5, 2, Some(100), 200, 3000));
    assert!(!row_is_new(1, 2, Some(100), 200, 3000));
    // window elapsed
    assert!(!row_is_new(2, 2, Some(100), 3100, 3000));
    // never grown
    assert!(!row_is_new(2, 0, None, 200, 3000));
}

#[test]
fn display_rows_reverse_order_and_highlight() {
    let mut state = AppState::new();
    state.commit(vec![reading("a")], 1000);
    state.commit(vec![reading("a"), reading("b"), reading("c")], 2000);
    assert_eq!(state.previous_data_len, 1);
    let rows = display_rows(&state, 2500, 3000);
    assert_eq!(rows, vec![(2, true), (1, true), (0, false)]);
    // after the window only the order remains
    let rows_later = display_rows(&state, 6000, 3000);
    assert_eq!(rows_later, vec![(2, false), (1, false), (0, false)]);
}
