//! What the execution breaker is for.
use vstd::arithmetic::power::pow;
use vstd::prelude::*;

use crate::admission::model::HealthView;
use crate::breaker::{
    combined, day_number, degrade_at, error_rate_bps, failed, pruned, BreakerView,
    ExecutionBreakerConfig, Sample,
};
use crate::decimal::{whole_numbers_have_their_value, Decimal, Usd};
use crate::laws::values::{divides_to, multiplies_to, negates_to, sums_to};
use crate::time::Timestamp;

verus! {

/// The answers that were failures.
pub open spec fn failures_among(samples: Seq<Sample>) -> Seq<Sample> {
    samples.filter(|s: Sample| !s.success)
}

proof fn lemma_failures_are_counted(samples: Seq<Sample>)
    ensures
        failed(samples) == failures_among(samples).len(),
    decreases samples.len(),
{
    reveal(Seq::filter);
    if samples.len() > 0 {
        lemma_failures_are_counted(samples.drop_last());
    }
}

/// The error rate is the share of failures among the answers, in hundredths of
/// a percent and rounded down.
pub proof fn error_rates_are_shares_of_failures(samples: Seq<Sample>)
    requires
        samples.len() > 0,
        failures_among(samples).len() * 10000 <= usize::MAX,
    ensures
        error_rate_bps(samples) * samples.len() <= failures_among(samples).len() * 10000 < (
        error_rate_bps(samples) + 1) * samples.len(),
{
    lemma_failures_are_counted(samples);
    let scaled = (failed(samples) * 10000) as int;
    let count = samples.len() as int;
    vstd::arithmetic::div_mod::lemma_fundamental_div_mod(scaled, count);
    let rate = scaled / count;
    assert(rate * count <= scaled < (rate + 1) * count) by (nonlinear_arith)
        requires
            scaled == count * rate + scaled % count,
            0 <= scaled % count < count,
    ;
}

/// Only answers from before the window leave it, oldest first, and the oldest
/// that stays is inside it.
pub proof fn old_answers_leave_the_window(samples: Seq<Sample>, now: u64, window_secs: u64)
    ensures
        exists|gone: int|
            0 <= gone <= samples.len() && #[trigger] samples.skip(gone) == pruned(
                samples,
                now,
                window_secs,
            ) && (forall|i: int|
                0 <= i < gone ==> now - (#[trigger] samples[i]).at > window_secs * 1000000000) && (
            gone < samples.len() ==> now - samples[gone].at <= window_secs * 1000000000),
    decreases samples.len(),
{
    if samples.len() > 0 && now - samples[0].at > window_secs * 1000000000 {
        let rest = samples.drop_first();
        old_answers_leave_the_window(rest, now, window_secs);
        let gone = choose|gone: int|
            0 <= gone <= rest.len() && #[trigger] rest.skip(gone) == pruned(rest, now, window_secs)
                && (forall|i: int|
                0 <= i < gone ==> now - (#[trigger] rest[i]).at > window_secs * 1000000000) && (gone
                < rest.len() ==> now - rest[gone].at <= window_secs * 1000000000);
        assert(samples.skip(gone + 1) =~= rest.skip(gone));
        assert forall|i: int| 0 <= i < gone + 1 implies now - (#[trigger] samples[i]).at
            > window_secs * 1000000000 by {
            if i > 0 {
                assert(samples[i] == rest[i - 1]);
            }
        }
    } else {
        assert(samples.skip(0) =~= samples);
    }
}

/// Each failure makes the streak longer by one, and a success ends it.  What was
/// answered is remembered last, and the time of the last failure is kept.
pub proof fn answers_are_remembered(
    state: BreakerView,
    now: u64,
    success: bool,
    config: ExecutionBreakerConfig,
)
    requires
        state.consecutive_failures < u32::MAX,
    ensures
        ({
            let after = state.recorded(now, success, config);
            &&& after.samples.len() > 0 && after.samples.last().at == now
                && after.samples.last().success == success
            &&& after.samples.drop_last() == pruned(state.samples, now, config.venue_window_secs)
            &&& success ==> after.consecutive_failures == 0 && after.last_failure_at
                == state.last_failure_at
            &&& !success ==> after.consecutive_failures == state.consecutive_failures + 1
                && after.last_failure_at == Some(now)
        }),
{
    let after = state.recorded(now, success, config);
    assert(after.samples.drop_last() =~= pruned(state.samples, now, config.venue_window_secs));
}

/// The breaker trips exactly when, with this answer, so many failures came in
/// a row, or failures are so large a share of enough answers, as the thresholds
/// say; and then the venue is degraded.
pub proof fn sustained_failures_trip(
    state: BreakerView,
    now: u64,
    success: bool,
    config: ExecutionBreakerConfig,
)
    requires
        !state.tripped,
        failures_among(state.recorded(now, success, config).samples).len() * 10000 <= usize::MAX,
    ensures
        ({
            let after = state.recorded(now, success, config);
            let failures = failures_among(after.samples).len();
            let total = after.samples.len();
            &&& state.trips(now, success, config) <==> (after.consecutive_failures
                >= config.venue_consecutive_failures_to_halt || (total
                >= config.venue_min_window_samples && failures * 10000
                >= config.venue_error_rate_bps_to_halt * total))
            &&& state.trips(now, success, config) ==> after.tripped && after.health is Degraded
            &&& !state.trips(now, success, config) ==> !after.tripped
        }),
{
    let after = state.recorded(now, success, config);
    error_rates_are_shares_of_failures(after.samples);
    let rate = error_rate_bps(after.samples);
    let total = after.samples.len() as int;
    let limit = config.venue_error_rate_bps_to_halt as int;
    let scaled = failures_among(after.samples).len() * 10000;
    assert((rate >= limit) == (scaled >= limit * total)) by (nonlinear_arith)
        requires
            rate * total <= scaled < (rate + 1) * total,
            total > 0,
    ;
}

/// So many failures in a row as the lower threshold says degrade the venue; fewer
/// of them, without a trip, leave it as it was.
pub proof fn streaks_degrade(
    state: BreakerView,
    now: u64,
    success: bool,
    config: ExecutionBreakerConfig,
)
    ensures
        ({
            let after = state.recorded(now, success, config);
            &&& after.consecutive_failures >= config.venue_consecutive_failures_to_degrade
                ==> after.health is Degraded
            &&& after.consecutive_failures < config.venue_consecutive_failures_to_degrade
                && !after.tripped ==> after.health == state.health
        }),
{
}

/// Without a trip a degraded venue is healthy again once the cooldown has gone
/// by since the last failure, and not before; a healthy one stays healthy.
pub proof fn cooldowns_heal(
    state: BreakerView,
    today: i64,
    now: u64,
    cooldown_secs: u64,
    allows_new_entry: bool,
    failed_at: u64,
)
    requires
        !state.tripped,
        state.last_failure_at == Some(failed_at),
    ensures
        ({
            let after = state.ticked(today, now, cooldown_secs, allows_new_entry);
            &&& !after.tripped
            &&& state.health is Healthy ==> after.health is Healthy && after.samples
                == state.samples && after.consecutive_failures == state.consecutive_failures
            &&& state.health is Degraded && now - failed_at >= cooldown_secs * 1000000000
                ==> after.health is Healthy && after.consecutive_failures == 0
                && after.samples.len() == 0
            &&& state.health is Degraded && now - failed_at < cooldown_secs * 1000000000
                ==> after.health == state.health && after.consecutive_failures
                == state.consecutive_failures && after.samples == state.samples
        }),
{
}

/// A day lasts as many seconds as a day has and starts at midnight.
pub proof fn days_have_their_length(now: Timestamp)
    ensures
        day_number(now) * 86400 * 1000000000 <= now@ < (day_number(now) + 1) * 86400 * 1000000000,
{
}

/// Profits of one day add up; the first of another day starts anew.  The day
/// trips exactly when the loss has reached the cap, or had tripped before.
pub proof fn profits_of_a_day_add_up(
    state: BreakerView,
    pnl: Usd,
    today: i64,
    cap: Usd,
    total: Usd,
    opposite: Usd,
)
    requires
        cap@ > 0,
        state.day == Some(today),
        sums_to(state.realized_pnl_today, pnl, total),
        negates_to(total, opposite),
    ensures
        state.realized(pnl, today, cap) is Some,
        state.realized(pnl, today, cap)->0.realized_pnl_today@ == state.realized_pnl_today@ + pnl@,
        state.realized(pnl, today, cap)->0.day == Some(today),
        state.realized(pnl, today, cap)->0.health == state.health,
        state.realized(pnl, today, cap)->0.daily_tripped == (state.daily_tripped || -(
        state.realized_pnl_today@ + pnl@) >= cap@),
{
    losses_are_what_was_lost(state.realized(pnl, today, cap)->0, opposite);
}

/// On another day nothing of the day before counts.
pub proof fn days_start_anew(
    state: BreakerView,
    pnl: Usd,
    today: i64,
    cap: Usd,
    total: Usd,
    opposite: Usd,
)
    requires
        cap@ > 0,
        state.day != Some(today),
        sums_to(Decimal::of_parts(0, 0), pnl, total),
        negates_to(total, opposite),
    ensures
        state.realized(pnl, today, cap) is Some,
        state.realized(pnl, today, cap)->0.realized_pnl_today@ == pnl@,
        state.realized(pnl, today, cap)->0.day == Some(today),
        state.realized(pnl, today, cap)->0.daily_tripped == (-pnl@ >= cap@),
        !state.on_day(today).daily_tripped,
{
    whole_numbers_have_their_value(0);
    losses_are_what_was_lost(state.realized(pnl, today, cap)->0, opposite);
}

/// The loss of a day is what was lost, and nothing on a day without one.
pub proof fn losses_are_what_was_lost(state: BreakerView, opposite: Usd)
    requires
        negates_to(state.realized_pnl_today, opposite),
    ensures
        state.realized_pnl_today@ < 0 ==> state.loss()@ == -state.realized_pnl_today@,
        state.realized_pnl_today@ >= 0 ==> state.loss()@ == 0,
{
    whole_numbers_have_their_value(0);
}

/// The published health is healthy exactly when the venue is and the loss is
/// below four fifths of the cap.
pub proof fn losses_near_the_cap_degrade(
    health: HealthView,
    loss: Usd,
    cap: Usd,
    scaled: Usd,
    limit: Usd,
)
    requires
        cap@ > 0,
        multiplies_to(cap, Decimal::of_parts(8, 0), scaled),
        divides_to(scaled, Decimal::of_parts(10, 0), limit),
    ensures
        combined(health, loss, cap) is Some,
        combined(health, loss, cap)->0 is Healthy <==> health is Healthy && loss@ * 10 < cap@ * 8,
        loss@ * 10 < cap@ * 8 ==> combined(health, loss, cap)->0 == health,
{
    whole_numbers_have_their_value(8);
    whole_numbers_have_their_value(10);
    let one = pow(10, 28);
    vstd::arithmetic::power::lemma_pow_positive(10, 28);
    let c = cap@;
    let s = scaled@;
    let l = limit@;
    assert(s == c * 8) by (nonlinear_arith)
        requires
            s * one == c * (8 * one),
            one > 0,
    ;
    assert(l * 10 == s) by (nonlinear_arith)
        requires
            l * (10 * one) == s * one,
            one > 0,
    ;
    assert(degrade_at(cap) == Some(limit));
}

/// A cap of zero or less never degrades the health.
pub proof fn no_cap_degrades_nothing(health: HealthView, loss: Usd, cap: Usd)
    requires
        cap@ <= 0,
        combined(health, loss, cap) is Some,
    ensures
        combined(health, loss, cap)->0 == health,
{
}

} // verus!
