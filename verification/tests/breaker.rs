use quant_pivot_execution::breaker::{
    breaker_audit, combined_health, daily_loss_detail, day_of, trip_command, BreakerState,
    BreakerThresholds, ExecutionBreakerConfig,
};
use quant_pivot_execution::decimal::Decimal;
use quant_pivot_execution::dispatcher::gtd_expiration_at;
use quant_pivot_execution::error::ExecutionError;
use quant_pivot_execution::plans::KillSwitchState;
use quant_pivot_execution::time::Timestamp;
use quant_pivot_execution::types::OrderType;

const SECOND: u64 = 1_000_000_000;

fn dec(text: &str) -> Decimal {
    Decimal::parse(text).expect("decimal")
}

fn at(seconds: i64) -> Timestamp {
    Timestamp::new(seconds, 0).expect("time")
}

fn config() -> ExecutionBreakerConfig {
    ExecutionBreakerConfig {
        venue_window_secs: 60,
        venue_min_window_samples: 10,
        venue_error_rate_bps_to_halt: 5_000,
        venue_consecutive_failures_to_halt: 3,
        venue_consecutive_failures_to_degrade: 2,
        cooldown_secs: 30,
        daily_realized_loss_cap_usd: dec("100"),
    }
}

#[test]
fn breaker_thresholds_reject_negative_daily_cap() {
    let config = ExecutionBreakerConfig { daily_realized_loss_cap_usd: dec("-1"), ..config() };
    assert!(BreakerThresholds::new(config).is_err());
}

#[test]
fn gtd_expiration_rejects_timestamp() {
    assert!(gtd_expiration_at(&OrderType::Gtd { expiration: u64::MAX }).is_err());
}

#[test]
fn gtd_expirations_are_read_in_seconds() {
    assert_eq!(
        gtd_expiration_at(&OrderType::Gtd { expiration: 1_700_000_000 }),
        Ok(Some(at(1_700_000_000)))
    );
    assert_eq!(gtd_expiration_at(&OrderType::Fok), Ok(None));
}

#[test]
fn thresholds_carry_the_cap() {
    let thresholds = BreakerThresholds::new(config()).expect("thresholds");
    assert!(thresholds.daily_loss_cap.same(dec("100")));
}

#[test]
fn an_episode_of_failures_trips_once() {
    let mut state = BreakerState::new();
    assert!(!state.record(0, false, &config()));
    assert!(!state.record(SECOND, false, &config()));
    assert!(state.record(2 * SECOND, false, &config()));
    assert!(!state.record(3 * SECOND, false, &config()));
    assert!(state.tripped);
    assert_eq!(state.consecutive_failures, 4);
    state.tick(0, 4 * SECOND, 30, false);
    assert!(state.tripped);
    state.tick(0, 5 * SECOND, 30, true);
    assert!(!state.tripped);
    assert!(state.samples.is_empty());
}

#[test]
fn successes_end_the_streak() {
    let mut state = BreakerState::new();
    state.record(0, false, &config());
    state.record(1, false, &config());
    assert!(!state.record(2, true, &config()));
    assert_eq!(state.consecutive_failures, 0);
    assert!(!state.record(3, false, &config()));
}

#[test]
fn the_window_forgets() {
    let mut state = BreakerState::new();
    state.record(0, false, &config());
    state.record(100 * SECOND, true, &config());
    assert_eq!(state.samples.len(), 1);
}

#[test]
fn a_days_losses_trip_once() {
    let mut state = BreakerState::new();
    let noon = at(43_200);
    assert_eq!(state.observe_realized_pnl(dec("-60"), noon, dec("100")), Ok(false));
    assert_eq!(state.observe_realized_pnl(dec("-40"), noon, dec("100")), Ok(true));
    assert_eq!(state.observe_realized_pnl(dec("-40"), noon, dec("100")), Ok(false));
    assert!(state.daily_loss().same(dec("140")));
    let tomorrow = at(86_400);
    assert_eq!(day_of(tomorrow), day_of(noon) + 1);
    assert_eq!(state.observe_realized_pnl(dec("-10"), tomorrow, dec("100")), Ok(false));
    assert!(state.daily_loss().same(dec("10")));
}

#[test]
fn no_cap_observes_nothing() {
    let mut state = BreakerState::new();
    assert_eq!(state.observe_realized_pnl(dec("-60"), at(0), dec("0")), Ok(false));
    assert!(state.daily_loss().is_zero());
}

#[test]
fn losses_that_cannot_be_summed_are_refused() {
    let mut state = BreakerState::new();
    let huge = dec("79228162514264337593543950335");
    assert_eq!(state.observe_realized_pnl(huge, at(0), dec("1")), Ok(false));
    assert_eq!(
        state.observe_realized_pnl(huge, at(0), dec("1")),
        Err(ExecutionError::DecimalOverflow)
    );
}

#[test]
fn trips_are_commanded_and_audited() {
    let command = trip_command(8, "daily_loss", &daily_loss_detail(dec("101.5"), dec("100")));
    assert_eq!(command.target, KillSwitchState::ExecutionHalted);
    assert_eq!(command.expected_revision, 8);
    assert_eq!(
        command.reason,
        "execution breaker tripped (daily_loss): daily realized loss 101.5 reached cap 100"
    );
    let audit = breaker_audit("venue", "three failures");
    assert_eq!(audit.request_id, "execution-breaker:venue");
    assert_eq!(audit.action, "system.kill_switch.breaker_trip");
    assert_eq!(audit.http_status, 200);
}

#[test]
fn losses_near_the_cap_degrade_health() {
    let state = BreakerState::new();
    let calm = combined_health(&state.health, dec("0"), dec("100")).expect("health");
    assert!(format!("{calm:?}").contains("Healthy"));
    let tense = combined_health(&state.health, dec("100"), dec("100")).expect("health");
    assert!(!format!("{tense:?}").contains("Healthy"));
}

#[test]
fn a_day_is_observed_and_published() {
    let mut state = BreakerState::new();
    let noon = at(43_200);
    let mut trips = 0;
    let mut published = Vec::new();
    for pnl in ["-79", "-1", "-20", "5", "-30"] {
        let seen = state.observe_day(dec(pnl), noon, dec("100")).expect("sum").expect("cap");
        trips += u32::from(seen.tripped);
        published.push((seen.loss.to_text(), format!("{:?}", seen.published)));
    }
    assert_eq!(trips, 1);
    let losses = published.iter().map(|(loss, _)| loss.as_str()).collect::<Vec<_>>();
    assert_eq!(losses, vec!["79", "80", "100", "95", "125"]);
    assert_eq!(published[0].1, "Healthy");
    assert!(published[1].1.contains("daily realized loss 80 \u{2265} 80% of cap 100"));
}

#[test]
fn a_day_without_a_cap_is_left_alone() {
    let mut state = BreakerState::new();
    assert!(state.observe_day(dec("-500"), at(0), dec("0")).expect("no sum").is_none());
    assert!(state.daily_loss().is_zero());
}

#[test]
fn a_trip_outlasts_ticks_and_comes_back() {
    let mut state = BreakerState::new();
    for second in 0..3 {
        state.record(second * SECOND, false, &config());
    }
    for second in 3..200 {
        state.tick(0, second * SECOND, 30, false);
        assert!(state.tripped);
        assert!(!state.record(second * SECOND, false, &config()));
    }
    state.tick(0, 200 * SECOND, 30, true);
    assert!(!state.tripped);
    assert!(!state.record(201 * SECOND, false, &config()));
    assert!(!state.record(202 * SECOND, false, &config()));
    assert!(state.record(203 * SECOND, false, &config()));
}
