use coclai::config::{
    base_restart_delay_ms, compute_restart_delay, jitter_seed, restart_delay_ms,
    validate_runtime_capacities, validate_state_projection_limits, RestartPolicy,
    StateProjectionLimits, SupervisorConfig, supervisor_decision, SupervisorDecision,
};
use coclai::errors::RuntimeError;

#[test]
fn restart_delay_stays_within_base_and_jitter_bounds() {
    for attempt in 0..8 {
        let delay_ms = compute_restart_delay(attempt, 10, 160);
        let base_ms = (10u64.saturating_mul(1u64 << attempt)).min(160);
        let jitter_cap_ms = (base_ms / 10).min(1_000);

        assert!(delay_ms >= base_ms);
        assert!(delay_ms <= base_ms + jitter_cap_ms);
    }
}

#[test]
fn base_delay_doubles_until_the_cap() {
    assert_eq!(base_restart_delay_ms(0, 10, 160), 10);
    assert_eq!(base_restart_delay_ms(3, 10, 160), 80);
    assert_eq!(base_restart_delay_ms(4, 10, 160), 160);
    assert_eq!(base_restart_delay_ms(40, 10, 160), 160);
    assert_eq!(base_restart_delay_ms(63, u64::MAX, u64::MAX), u64::MAX);
}

#[test]
fn jitter_is_drawn_below_a_tenth_of_the_base() {
    assert_eq!(restart_delay_ms(4, 10, 160, 0), 160);
    assert_eq!(restart_delay_ms(4, 10, 160, 16), 176);
    assert_eq!(restart_delay_ms(4, 10, 160, 17), 160);
    assert_eq!(restart_delay_ms(0, 5, 160, 12345), 5);
    assert_eq!(restart_delay_ms(20, 1_000_000, 1_000_000, 2_000), 1_000_000 + 2_000 % 1_001);
    assert_ne!(jitter_seed(1), jitter_seed(2));
}

#[test]
fn capacities_must_be_positive() {
    assert_eq!(validate_runtime_capacities(1, 1, false, 0, 1), Ok(()));
    assert_eq!(
        validate_runtime_capacities(0, 1, false, 1, 1),
        Err(RuntimeError::InvalidConfig("live_channel_capacity must be > 0".to_owned()))
    );
    assert_eq!(
        validate_runtime_capacities(1, 0, false, 1, 1),
        Err(RuntimeError::InvalidConfig("server_request_channel_capacity must be > 0".to_owned()))
    );
    assert_eq!(
        validate_runtime_capacities(1, 1, true, 0, 1),
        Err(RuntimeError::InvalidConfig(
            "event_sink_channel_capacity must be > 0 when event_sink is configured".to_owned()
        ))
    );
    assert_eq!(
        validate_runtime_capacities(1, 1, true, 1, 0),
        Err(RuntimeError::InvalidConfig("rpc_response_timeout must be > 0".to_owned()))
    );
}

#[test]
fn projection_limits_must_be_positive() {
    let ok = StateProjectionLimits {
        max_threads: 1,
        max_turns_per_thread: 1,
        max_items_per_turn: 1,
        max_text_bytes_per_item: 1,
        max_stdout_bytes_per_item: 1,
        max_stderr_bytes_per_item: 1,
    };
    assert_eq!(validate_state_projection_limits(&ok), Ok(()));
    let bad = StateProjectionLimits { max_items_per_turn: 0, ..ok };
    assert_eq!(
        validate_state_projection_limits(&bad),
        Err(RuntimeError::InvalidConfig(
            "state_projection_limits.max_items_per_turn must be > 0".to_owned()
        ))
    );
    let sup = SupervisorConfig::default();
    assert_eq!(sup.restart, RestartPolicy::Never);
    assert_eq!(sup.shutdown_flush_timeout_ms, 500);
    assert_eq!(sup.shutdown_terminate_grace_ms, 750);
}

#[test]
fn supervisor_decides_stop_dead_or_restart() {
    let on_crash = RestartPolicy::OnCrash { max_restarts: 2, base_backoff_ms: 100, max_backoff_ms: 1_000 };
    assert_eq!(supervisor_decision(&on_crash, 0, true, 4), SupervisorDecision::Stop);
    assert_eq!(supervisor_decision(&RestartPolicy::Never, 0, false, 4), SupervisorDecision::Dead);
    assert_eq!(supervisor_decision(&on_crash, 2, false, 4), SupervisorDecision::Dead);
    assert_eq!(
        supervisor_decision(&on_crash, 1, false, 4),
        SupervisorDecision::Restart {
            generation: 4,
            attempt: 1,
            base_backoff_ms: 100,
            max_backoff_ms: 1_000,
            restarts: 2,
            next_generation: 5,
        }
    );
    assert!(matches!(
        supervisor_decision(&on_crash, 0, false, u64::MAX),
        SupervisorDecision::Restart { next_generation: u64::MAX, .. }
    ));
}
