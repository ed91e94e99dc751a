//! Runtime configuration: restart policy and backoff, capacity and
//! projection-limit checks.
use vstd::prelude::*;
use crate::errors::RuntimeError;
use crate::text::owned;

verus! {

/// Whether and how a crashed app-server is restarted.
#[derive(Clone, Copy, Debug, PartialEq, Eq, Structural)]
pub enum RestartPolicy {
    Never,
    OnCrash { max_restarts: u32, base_backoff_ms: u64, max_backoff_ms: u64 },
}

/// Lifecycle settings of the supervised process.
#[derive(Clone, Copy, Debug, PartialEq, Eq, Structural)]
pub struct SupervisorConfig {
    pub restart: RestartPolicy,
    pub shutdown_flush_timeout_ms: u64,
    pub shutdown_terminate_grace_ms: u64,
}

impl Default for SupervisorConfig {
    /// No restarts, 500 ms to flush and 750 ms to terminate on shutdown.
    fn default() -> (c: Self)
        ensures
            c.restart == RestartPolicy::Never,
            c.shutdown_flush_timeout_ms == 500,
            c.shutdown_terminate_grace_ms == 750,
    {
        SupervisorConfig { restart: RestartPolicy::Never, shutdown_flush_timeout_ms: 500, shutdown_terminate_grace_ms: 750 }
    }
}

/// What the supervisor does after the app-server process exited.
#[derive(Clone, Copy, Debug, PartialEq, Eq, Structural)]
pub enum SupervisorDecision {
    /// The runtime is shutting down: stop supervising.
    Stop,
    /// No more restarts: the connection is dead.
    Dead,
    /// Mark generation `generation` as restarting, wait the backoff of
    /// restart number `attempt`, then spawn generation `next_generation`;
    /// `restarts` restarts have then been made.
    Restart {
        generation: u64,
        attempt: u32,
        base_backoff_ms: u64,
        max_backoff_ms: u64,
        restarts: u32,
        next_generation: u64,
    },
}

/// The supervisor's decision after the process of generation `generation`
/// exited, `restarts` restarts having been made: a shutdown stops it; the
/// `Never` policy, or a restart count that reached `max_restarts`, leaves
/// the connection dead; otherwise the generation restarts with the
/// backoff of the current count, one more restart counted (saturating).
pub fn supervisor_decision(policy: &RestartPolicy, restarts: u32, shutting_down: bool, generation: u64) -> (d: SupervisorDecision)
    ensures
        shutting_down ==> d == SupervisorDecision::Stop,
        !shutting_down ==> d == match *policy {
            RestartPolicy::Never => SupervisorDecision::Dead,
            RestartPolicy::OnCrash { max_restarts, base_backoff_ms, max_backoff_ms } =>
                if restarts >= max_restarts {
                    SupervisorDecision::Dead
                } else {
                    SupervisorDecision::Restart {
                        generation,
                        attempt: restarts,
                        base_backoff_ms,
                        max_backoff_ms,
                        restarts: (restarts + 1) as u32,
                        next_generation: if generation == u64::MAX { generation } else { (generation + 1) as u64 },
                    }
                },
        },
{
    if shutting_down {
        return SupervisorDecision::Stop;
    }
    match *policy {
        RestartPolicy::Never => SupervisorDecision::Dead,
        RestartPolicy::OnCrash { max_restarts, base_backoff_ms, max_backoff_ms } => {
            if restarts >= max_restarts {
                SupervisorDecision::Dead
            } else {
                SupervisorDecision::Restart {
                    generation,
                    attempt: restarts,
                    base_backoff_ms,
                    max_backoff_ms,
                    restarts: restarts + 1,
                    next_generation: generation.saturating_add(1),
                }
            }
        },
    }
}

/// Where the active protocol schemas are.
#[derive(Clone, Debug, PartialEq, Eq)]
pub struct SchemaGuardConfig {
    pub active_schema_dir: String,
}

/// Bounds of the in-memory projection of threads, turns and items.
#[derive(Clone, Copy, Debug, PartialEq, Eq, Structural)]
pub struct StateProjectionLimits {
    pub max_threads: usize,
    pub max_turns_per_thread: usize,
    pub max_items_per_turn: usize,
    pub max_text_bytes_per_item: usize,
    pub max_stdout_bytes_per_item: usize,
    pub max_stderr_bytes_per_item: usize,
}

/// `r` is success when `e` is `None`, else the config error `e`.
pub open spec fn config_outcome(r: Result<(), RuntimeError>, e: Option<Seq<char>>) -> bool {
    match e {
        None => r is Ok,
        Some(m) => r matches Err(RuntimeError::InvalidConfig(x)) && x@ == m,
    }
}

/// The first capacity that is zero, in the order checked.
pub open spec fn capacities_error(live: usize, server_request: usize, has_event_sink: bool, event_sink: usize, rpc_timeout_ms: u64) -> Option<Seq<char>> {
    if live == 0 {
        Some("live_channel_capacity must be > 0"@)
    } else if server_request == 0 {
        Some("server_request_channel_capacity must be > 0"@)
    } else if has_event_sink && event_sink == 0 {
        Some("event_sink_channel_capacity must be > 0 when event_sink is configured"@)
    } else if rpc_timeout_ms == 0 {
        Some("rpc_response_timeout must be > 0"@)
    } else {
        None
    }
}

/// Configuration error with message `m`.
fn invalid_config(m: &str) -> (e: RuntimeError)
    ensures
        e matches RuntimeError::InvalidConfig(x) && x@ == m@,
{
    RuntimeError::InvalidConfig(owned(m))
}

/// Channel capacities and the RPC timeout must be positive (the event-sink
/// capacity only when there is a sink).
pub fn validate_runtime_capacities(
    live_channel_capacity: usize,
    server_request_channel_capacity: usize,
    has_event_sink: bool,
    event_sink_channel_capacity: usize,
    rpc_response_timeout_ms: u64,
) -> (r: Result<(), RuntimeError>)
    ensures
        config_outcome(r, capacities_error(live_channel_capacity, server_request_channel_capacity,
            has_event_sink, event_sink_channel_capacity, rpc_response_timeout_ms)),
{
    if live_channel_capacity == 0 {
        return Err(invalid_config("live_channel_capacity must be > 0"));
    }
    if server_request_channel_capacity == 0 {
        return Err(invalid_config("server_request_channel_capacity must be > 0"));
    }
    if has_event_sink && event_sink_channel_capacity == 0 {
        return Err(invalid_config("event_sink_channel_capacity must be > 0 when event_sink is configured"));
    }
    if rpc_response_timeout_ms == 0 {
        return Err(invalid_config("rpc_response_timeout must be > 0"));
    }
    Ok(())
}

/// The first projection limit that is zero, in field order.
pub open spec fn limits_error(l: StateProjectionLimits) -> Option<Seq<char>> {
    if l.max_threads == 0 {
        Some("state_projection_limits.max_threads must be > 0"@)
    } else if l.max_turns_per_thread == 0 {
        Some("state_projection_limits.max_turns_per_thread must be > 0"@)
    } else if l.max_items_per_turn == 0 {
        Some("state_projection_limits.max_items_per_turn must be > 0"@)
    } else if l.max_text_bytes_per_item == 0 {
        Some("state_projection_limits.max_text_bytes_per_item must be > 0"@)
    } else if l.max_stdout_bytes_per_item == 0 {
        Some("state_projection_limits.max_stdout_bytes_per_item must be > 0"@)
    } else if l.max_stderr_bytes_per_item == 0 {
        Some("state_projection_limits.max_stderr_bytes_per_item must be > 0"@)
    } else {
        None
    }
}

/// Every projection limit must be positive.
pub fn validate_state_projection_limits(limits: &StateProjectionLimits) -> (r: Result<(), RuntimeError>)
    ensures
        config_outcome(r, limits_error(*limits)),
{
    if limits.max_threads == 0 {
        return Err(invalid_config("state_projection_limits.max_threads must be > 0"));
    }
    if limits.max_turns_per_thread == 0 {
        return Err(invalid_config("state_projection_limits.max_turns_per_thread must be > 0"));
    }
    if limits.max_items_per_turn == 0 {
        return Err(invalid_config("state_projection_limits.max_items_per_turn must be > 0"));
    }
    if limits.max_text_bytes_per_item == 0 {
        return Err(invalid_config("state_projection_limits.max_text_bytes_per_item must be > 0"));
    }
    if limits.max_stdout_bytes_per_item == 0 {
        return Err(invalid_config("state_projection_limits.max_stdout_bytes_per_item must be > 0"));
    }
    if limits.max_stderr_bytes_per_item == 0 {
        return Err(invalid_config("state_projection_limits.max_stderr_bytes_per_item must be > 0"));
    }
    Ok(())
}

/// `2^e`.
pub open spec fn pow2(e: nat) -> nat
    decreases e,
{
    if e == 0 { 1 } else { 2 * pow2((e - 1) as nat) }
}

/// `x` capped at `u64::MAX`.
pub open spec fn saturate(x: int) -> u64 {
    if x > u64::MAX { u64::MAX } else { x as u64 }
}

/// Backoff before restart number `attempt`: `base * 2^min(attempt, 20)`,
/// saturating, then capped at `max`.
pub open spec fn spec_base_delay(attempt: u32, base: u64, max: u64) -> u64 {
    let exp = if attempt < 20 { attempt as nat } else { 20nat };
    let scaled = saturate(base * pow2(exp));
    if scaled < max { scaled } else { max }
}

/// Largest jitter added to a delay: a tenth of it, at most one second.
pub open spec fn spec_jitter_cap(delay: u64) -> u64 {
    if delay / 10 < 1000 { delay / 10 } else { 1000 }
}

/// The delay before restart number `attempt`, with jitter drawn from
/// `random`: the base delay plus `random` modulo one more than the cap.
pub open spec fn spec_restart_delay(attempt: u32, base: u64, max: u64, random: u64) -> u64 {
    let d = spec_base_delay(attempt, base, max);
    let cap = spec_jitter_cap(d);
    let jitter = if cap == 0 { 0 } else { random % ((cap + 1) as u64) };
    saturate(d + jitter)
}

/// `2^e` grows with `e`.
proof fn lemma_pow2_monotone(e: nat, k: nat)
    requires
        e <= k,
    ensures
        pow2(e) <= pow2(k),
    decreases k,
{
    if e < k {
        lemma_pow2_monotone(e, (k - 1) as nat);
    }
}

/// `2^e` for `e <= 20`.
fn pow2_u64(e: u32) -> (r: u64)
    requires
        e <= 20,
    ensures
        r == pow2(e as nat),
    decreases e,
{
    proof {
        lemma_pow2_monotone(e as nat, 20);
        reveal_with_fuel(pow2, 21);
        assert(pow2(20) == 1048576);
    }
    if e == 0 {
        1
    } else {
        let h = pow2_u64(e - 1);
        2 * h
    }
}

/// The restart backoff doubles with each attempt: the first restart waits
/// the base backoff (at most the cap); up to the twentieth, as long as
/// twice the current delay stays under the cap, the next delay is exactly
/// twice the current one; from the twentieth on it stays the same. No delay
/// exceeds the cap.
pub proof fn lemma_backoff_doubles(attempt: u32, base: u64, max: u64)
    ensures
        spec_base_delay(0, base, max) == (if base < max { base } else { max }),
        attempt < 20 && 2 * spec_base_delay(attempt, base, max) < max ==>
            spec_base_delay((attempt + 1) as u32, base, max) == 2 * spec_base_delay(attempt, base, max),
        attempt >= 20 && attempt < u32::MAX ==>
            spec_base_delay((attempt + 1) as u32, base, max) == spec_base_delay(attempt, base, max),
        spec_base_delay(attempt, base, max) <= max,
{
    assert(pow2(0) == 1) by { reveal(pow2); }
    assert(base * pow2(0) == base);
    assert(saturate(base * pow2(0)) == base);
    if attempt < 20 {
        let a = attempt as nat;
        assert(pow2(a + 1) == 2 * pow2(a)) by { reveal(pow2); }
        assert(base * pow2(a + 1) == 2 * (base * pow2(a))) by (nonlinear_arith)
            requires pow2(a + 1) == 2 * pow2(a);
    }
}

/// Backoff delay in milliseconds before restart number `attempt`, before
/// jitter (see `spec_base_delay`).
pub fn base_restart_delay_ms(attempt: u32, base_backoff_ms: u64, max_backoff_ms: u64) -> (r: u64)
    ensures
        r == spec_base_delay(attempt, base_backoff_ms, max_backoff_ms),
{
    let exp = if attempt < 20 { attempt } else { 20 };
    let factor = pow2_u64(exp);
    let scaled = match base_backoff_ms.checked_mul(factor) {
        Some(v) => v,
        None => u64::MAX,
    };
    if scaled < max_backoff_ms { scaled } else { max_backoff_ms }
}

/// Delay in milliseconds before restart number `attempt` with jitter drawn
/// from `random` (see `spec_restart_delay`).
pub fn restart_delay_ms(attempt: u32, base_backoff_ms: u64, max_backoff_ms: u64, random: u64) -> (r: u64)
    ensures
        r == spec_restart_delay(attempt, base_backoff_ms, max_backoff_ms, random),
        r >= spec_base_delay(attempt, base_backoff_ms, max_backoff_ms),
        r <= saturate(spec_base_delay(attempt, base_backoff_ms, max_backoff_ms)
            + spec_jitter_cap(spec_base_delay(attempt, base_backoff_ms, max_backoff_ms))),
{
    let base_delay_ms = base_restart_delay_ms(attempt, base_backoff_ms, max_backoff_ms);
    let tenth = base_delay_ms / 10;
    let jitter_cap_ms = if tenth < 1000 { tenth } else { 1000 };
    let jitter_ms = if jitter_cap_ms == 0 { 0 } else { random % (jitter_cap_ms + 1) };
    base_delay_ms.saturating_add(jitter_ms)
}

/// The time elapsed since the Unix epoch in milliseconds, read from the
/// system clock (`std::time::SystemTime::elapsed` on `UNIX_EPOCH`; a clock
/// set before the epoch reads as zero). It depends on the clock, so nothing
/// is stated of it.
#[verifier::external_body]
fn now_millis() -> u64 {
    match std::time::UNIX_EPOCH.elapsed() {
        Ok(d) => d.as_millis() as u64,
        Err(_) => 0,
    }
}

/// A jitter seed mixed from a clock reading.
pub fn jitter_seed(t: u64) -> (r: u64)
    ensures
        r == ({
            let x0 = t ^ ((t << 13u64) | (t >> 51u64)) ^ 0x9E37_79B9_7F4A_7C15u64;
            let x1 = x0 ^ (x0 << 7u64);
            x1 ^ (x1 >> 9u64)
        }),
{
    let mut x = t ^ ((t << 13u64) | (t >> 51u64)) ^ 0x9E37_79B9_7F4A_7C15u64;
    x = x ^ (x << 7u64);
    x = x ^ (x >> 9u64);
    x
}

/// Delay in milliseconds before restart number `attempt`, with jitter
/// seeded from the clock; whatever the clock reads, it lies between the
/// base delay and the base delay plus the jitter cap.
pub fn compute_restart_delay(attempt: u32, base_backoff_ms: u64, max_backoff_ms: u64) -> (r: u64)
    ensures
        r >= spec_base_delay(attempt, base_backoff_ms, max_backoff_ms),
        r <= saturate(spec_base_delay(attempt, base_backoff_ms, max_backoff_ms)
            + spec_jitter_cap(spec_base_delay(attempt, base_backoff_ms, max_backoff_ms))),
{
    let seed = jitter_seed(now_millis());
    restart_delay_ms(attempt, base_backoff_ms, max_backoff_ms, seed)
}

} // verus!
