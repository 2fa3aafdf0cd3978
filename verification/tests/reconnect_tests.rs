use boincrs::app::reconnect::{backoff_delay, backoff_ms, Delay};
use boincrs::app::state::{ConnectionState, ViewState, REFRESH_INTERVAL_MS};
use boincrs::error::AppError;
use std::io;

fn io_err() -> AppError {
    AppError::Io(io::Error::new(io::ErrorKind::ConnectionRefused, "refused"))
}

// ── error classification ─────────────────────────────────────────────────────

#[test]
fn io_error_is_transient() {
    assert!(io_err().is_transient());
}

#[test]
fn protocol_error_is_transient() {
    assert!(AppError::Protocol("framing".into()).is_transient());
}

#[test]
fn invalid_response_is_transient() {
    assert!(AppError::InvalidResponse("missing field".into()).is_transient());
}

#[test]
fn auth_failure_is_terminal() {
    assert!(!AppError::AuthenticationFailed.is_transient());
}

#[test]
fn ui_error_is_terminal() {
    assert!(!AppError::Ui("render".into()).is_transient());
}

// ── backoff sanity ────────────────────────────────────────────────────────────

#[test]
fn backoff_grows_and_stays_bounded() {
    let d1 = backoff_delay(1).as_millis();
    let d4 = backoff_delay(4).as_millis();
    let d10 = backoff_delay(10).as_millis();
    assert!(d1 < d4, "backoff should grow: {d1} < {d4}");
    assert!(d4 <= d10 + 1, "backoff should not shrink at high attempts");
    assert!(
        d10 <= 37_500,
        "backoff must stay bounded (max 30s + 25% jitter)"
    );
    assert!(d1 >= 500, "backoff must be at least MIN_MS");
}

// ── connection state machine ─────────────────────────────────────────────────

fn make_state() -> ViewState {
    ViewState::new()
}

#[test]
fn transient_failure_transitions_to_retrying() {
    let mut state = make_state();
    state.process_refresh_result(Err(io_err()));
    assert!(
        matches!(state.conn, ConnectionState::Retrying { attempt: 1, .. }),
        "expected Retrying after first IO failure, got {:?}",
        state.conn
    );
}

#[test]
fn successive_transient_failures_increment_attempt() {
    let mut state = make_state();
    state.process_refresh_result(Err(io_err()));
    state.process_refresh_result(Err(io_err()));
    state.process_refresh_result(Err(io_err()));
    assert!(
        matches!(state.conn, ConnectionState::Retrying { attempt: 3, .. }),
        "expected attempt=3, got {:?}",
        state.conn
    );
}

#[test]
fn recovery_resets_to_connected() {
    let mut state = make_state();
    state.process_refresh_result(Err(io_err()));
    state.process_refresh_result(Err(io_err()));
    assert!(matches!(state.conn, ConnectionState::Retrying { .. }));

    state.process_refresh_result(Ok(()));
    assert_eq!(state.conn, ConnectionState::Connected);
}

#[test]
fn recovery_resets_attempt_counter() {
    let mut state = make_state();
    for _ in 0..5 {
        state.process_refresh_result(Err(io_err()));
    }
    state.process_refresh_result(Ok(()));
    state.process_refresh_result(Err(io_err()));
    assert!(
        matches!(state.conn, ConnectionState::Retrying { attempt: 1, .. }),
        "attempt counter should reset after recovery, got {:?}",
        state.conn
    );
}

#[test]
fn auth_failure_transitions_to_terminal() {
    let mut state = make_state();
    state.process_refresh_result(Err(AppError::AuthenticationFailed));
    assert!(
        matches!(state.conn, ConnectionState::TerminalError(_)),
        "expected TerminalError for auth failure, got {:?}",
        state.conn
    );
}

#[test]
fn terminal_error_status_line_contains_guidance() {
    let mut state = make_state();
    state.process_refresh_result(Err(AppError::AuthenticationFailed));
    assert!(
        state.status_line.contains("Fatal"),
        "status line should contain 'Fatal': {}",
        state.status_line
    );
}

#[test]
fn retrying_status_line_mentions_attempt_and_delay() {
    let mut state = make_state();
    state.process_refresh_result(Err(io_err()));
    let line = &state.status_line;
    assert!(
        line.contains("retrying") || line.contains("Retrying") || line.contains("retry"),
        "status line should mention retry: {line}"
    );
    assert!(line.contains('1'), "status line should mention attempt number: {line}");
}

#[test]
fn retrying_delay_increases_with_attempts() {
    let mut state = make_state();
    let d1 = state.process_refresh_result(Err(io_err())).as_millis();
    let d2 = state.process_refresh_result(Err(io_err())).as_millis();
    let d3 = state.process_refresh_result(Err(io_err())).as_millis();
    assert!(d1 <= d2 + 300, "delay should grow (with jitter tolerance): {d1} → {d2}");
    assert!(d2 <= d3 + 300, "delay should grow (with jitter tolerance): {d2} → {d3}");
}

#[test]
fn full_reconnect_cycle_with_recovering_transport() {
    let mut state = make_state();

    state.process_refresh_result(Ok(()));
    assert_eq!(state.conn, ConnectionState::Connected);

    state.process_refresh_result(Err(io_err()));
    assert!(matches!(state.conn, ConnectionState::Retrying { attempt: 1, .. }));
    state.process_refresh_result(Err(io_err()));
    assert!(matches!(state.conn, ConnectionState::Retrying { attempt: 2, .. }));

    state.process_refresh_result(Ok(()));
    assert_eq!(state.conn, ConnectionState::Connected);
}

// ── exact values ─────────────────────────────────────────────────────────────

#[test]
fn backoff_exact_values_for_chosen_jitter() {
    // base 1000, quarter 250: jitter = nanos % 500 - 250
    assert_eq!(backoff_ms(1, 0), 750);
    assert_eq!(backoff_ms(1, 499), 1249);
    assert_eq!(backoff_ms(0, 250), 1000);
    assert_eq!(backoff_ms(3, 1000), 4000);
    assert_eq!(backoff_ms(5, 4000), 16000);
    assert_eq!(backoff_ms(5, 8000), 12000);
    assert_eq!(backoff_ms(6, 0), 22_500);
    assert_eq!(backoff_ms(u32::MAX, 14_999), 37_499);
    assert_eq!(Delay { millis: 42 }.as_millis(), 42);
}

#[test]
fn applied_refresh_results_are_exact() {
    let mut state = make_state();
    let d = state.apply_refresh_result(Err(io_err()), 0);
    assert_eq!(d.as_millis(), 750);
    assert_eq!(state.conn, ConnectionState::Retrying { attempt: 1, delay_ms: 750 });
    assert_eq!(state.status_line, "Connection lost; retrying in 750 ms (attempt 1)");

    let d = state.apply_refresh_result(Err(AppError::InvalidResponse("x".into())), 1000);
    assert_eq!(d.as_millis(), 1500);
    assert_eq!(state.status_line, "Connection lost; retrying in 1500 ms (attempt 2)");

    let d = state.apply_refresh_result(Ok(()), 0);
    assert_eq!(d.as_millis(), REFRESH_INTERVAL_MS as u128);
    assert_eq!(state.status_line, "Connected. Refreshing every 2s.");

    state.apply_refresh_result(Err(AppError::Config("bad".into())), 0);
    assert_eq!(
        state.conn,
        ConnectionState::TerminalError("configuration error: bad".to_string())
    );
    assert_eq!(
        state.status_line,
        "Fatal: configuration error: bad. Check BOINCRS_PASSWORD and GUI RPC access, then restart."
    );
}

#[test]
fn error_messages_render_their_variant() {
    assert_eq!(AppError::AuthenticationFailed.to_string(), "RPC authentication failed");
    assert_eq!(AppError::Protocol("p".into()).to_string(), "RPC protocol error: p");
    assert_eq!(AppError::InvalidResponse("r".into()).to_string(), "Invalid BOINC response: r");
    assert_eq!(AppError::Ui("u".into()).to_string(), "UI error: u");
    assert!(io_err().to_string().starts_with("I/O error: "));
}
