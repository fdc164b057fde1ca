//! The execution breaker.
//!
//! It accumulates what decisions do not remember: how the venue answered over
//! a rolling window, and what was lost today. It publishes a health that only
//! defers entries; on a sustained failure it trips the kill switch, once per
//! episode, and the kill switch alone is the latch.
use vstd::prelude::*;
use vstd::string::*;

use crate::admission::model::{HealthView, VenueHealth};
use crate::decimal::{Decimal, Usd};
use crate::error::{ErrorView, ExecutionError};
use crate::plans::{KillSwitchState, SetKillSwitchCommand};
use crate::text::write_natural;
use crate::time::Timestamp;

verus! {

/// Governed thresholds of the breaker.
#[derive(Clone, Copy, Debug)]
pub struct ExecutionBreakerConfig {
    pub venue_window_secs: u64,
    pub venue_min_window_samples: u32,
    pub venue_error_rate_bps_to_halt: u32,
    pub venue_consecutive_failures_to_halt: u32,
    pub venue_consecutive_failures_to_degrade: u32,
    pub cooldown_secs: u64,
    /// Loss per day that trips the kill switch; zero switches this off.
    pub daily_realized_loss_cap_usd: Usd,
}

/// Thresholds that were found acceptable.
#[derive(Clone, Copy, Debug)]
pub struct BreakerThresholds {
    pub config: ExecutionBreakerConfig,
    pub daily_loss_cap: Usd,
}

impl BreakerThresholds {
    /// Accepts thresholds whose loss cap is not negative.
    pub fn new(config: ExecutionBreakerConfig) -> (r: Result<BreakerThresholds, ExecutionError>)
        ensures
            match r {
                Ok(thresholds) => config.daily_realized_loss_cap_usd@ >= 0 && thresholds == (
                BreakerThresholds { config, daily_loss_cap: config.daily_realized_loss_cap_usd }),
                Err(error) => config.daily_realized_loss_cap_usd@ < 0 && error@ == (
                ErrorView::Config {
                    reason: "execution.breaker.daily_realized_loss_cap_usd must be non-negative"@,
                }),
            },
    {
        if config.daily_realized_loss_cap_usd.is_negative() {
            return Err(
                ExecutionError::Config {
                    reason:
                        "execution.breaker.daily_realized_loss_cap_usd must be non-negative".to_owned(),
                },
            );
        }
        Ok(BreakerThresholds { config, daily_loss_cap: config.daily_realized_loss_cap_usd })
    }
}

/// One venue answer, at a monotonic time in nanoseconds.
#[derive(Clone, Copy, Debug, PartialEq, Eq, Structural)]
pub struct Sample {
    pub at: u64,
    pub success: bool,
}

/// Whether a sample has left the window.
pub open spec fn outdated(sample: Sample, now: u64, window_secs: u64) -> bool {
    now - sample.at > window_secs * 1000000000
}

/// The samples from the first one on that is still in the window.
pub open spec fn pruned(samples: Seq<Sample>, now: u64, window_secs: u64) -> Seq<Sample>
    decreases samples.len(),
{
    if samples.len() > 0 && outdated(samples[0], now, window_secs) {
        pruned(samples.drop_first(), now, window_secs)
    } else {
        samples
    }
}

/// Number of failures among samples.
pub open spec fn failed(samples: Seq<Sample>) -> nat
    decreases samples.len(),
{
    if samples.len() == 0 {
        0
    } else {
        failed(samples.drop_last()) + (if samples.last().success {
            0nat
        } else {
            1nat
        })
    }
}

/// Share of failures in basis points.
pub open spec fn error_rate_bps(samples: Seq<Sample>) -> int {
    (if failed(samples) * 10000 > usize::MAX {
        usize::MAX as int
    } else {
        (failed(samples) * 10000) as int
    }) / samples.len() as int
}

/// Failures in a row after one more answer.
pub open spec fn next_streak(streak: u32, success: bool) -> u32 {
    if success {
        0
    } else if streak < u32::MAX {
        (streak + 1) as u32
    } else {
        streak
    }
}

/// What the breaker remembers.
#[derive(Debug)]
pub struct BreakerState {
    pub samples: Vec<Sample>,
    pub consecutive_failures: u32,
    pub last_failure_at: Option<u64>,
    pub health: VenueHealth,
    /// Whether this failure episode has tripped the kill switch already.
    pub tripped: bool,
    /// Day that the profit belongs to, in days since the epoch.
    pub day: Option<i64>,
    /// Signed profit of that day.
    pub realized_pnl_today: Usd,
    /// Whether that day's loss has tripped the kill switch already.
    pub daily_tripped: bool,
}

/// A [`BreakerState`] by view.
#[verifier::ext_equal]
pub ghost struct BreakerView {
    pub samples: Seq<Sample>,
    pub consecutive_failures: u32,
    pub last_failure_at: Option<u64>,
    pub health: HealthView,
    pub tripped: bool,
    pub day: Option<i64>,
    pub realized_pnl_today: Usd,
    pub daily_tripped: bool,
}

impl View for BreakerState {
    type V = BreakerView;

    open spec fn view(&self) -> BreakerView {
        BreakerView {
            samples: self.samples@,
            consecutive_failures: self.consecutive_failures,
            last_failure_at: self.last_failure_at,
            health: self.health@,
            tripped: self.tripped,
            day: self.day,
            realized_pnl_today: self.realized_pnl_today,
            daily_tripped: self.daily_tripped,
        }
    }
}

/// Whether the venue keeps failing.
pub open spec fn sustained(
    samples: Seq<Sample>,
    streak: u32,
    config: ExecutionBreakerConfig,
) -> bool {
    ||| streak >= config.venue_consecutive_failures_to_halt
    ||| (samples.len() >= config.venue_min_window_samples && error_rate_bps(samples)
        >= config.venue_error_rate_bps_to_halt)
}

/// Health after one more answer. Below the thresholds an impaired health stays
/// until the cooldown heals it.
pub open spec fn next_health(
    health: HealthView,
    samples: Seq<Sample>,
    streak: u32,
    config: ExecutionBreakerConfig,
) -> HealthView {
    if sustained(samples, streak, config) {
        HealthView::Degraded {
            reason: "venue sustained failure: "@ + crate::text::natural_text(streak as nat)
                + " consecutive, "@ + crate::text::natural_text(error_rate_bps(samples) as nat)
                + " bps error rate"@,
        }
    } else if streak >= config.venue_consecutive_failures_to_degrade {
        HealthView::Degraded {
            reason: "venue degraded: "@ + crate::text::natural_text(streak as nat)
                + " consecutive failures"@,
        }
    } else {
        health
    }
}

impl BreakerView {
    /// The state after one more venue answer.
    pub open spec fn recorded(
        self,
        now: u64,
        success: bool,
        config: ExecutionBreakerConfig,
    ) -> BreakerView {
        let samples = pruned(self.samples, now, config.venue_window_secs).push(
            Sample { at: now, success },
        );
        let streak = next_streak(self.consecutive_failures, success);
        BreakerView {
            samples,
            consecutive_failures: streak,
            last_failure_at: if success {
                self.last_failure_at
            } else {
                Some(now)
            },
            health: next_health(self.health, samples, streak, config),
            tripped: self.tripped || sustained(samples, streak, config),
            ..self
        }
    }

    /// Whether one more venue answer trips the kill switch: on the rising edge
    /// of a sustained failure only.
    pub open spec fn trips(self, now: u64, success: bool, config: ExecutionBreakerConfig) -> bool {
        !self.tripped && self.recorded(now, success, config).tripped
    }

    /// A clean slate for the venue; the day's figures stay.
    pub open spec fn cleared(self) -> BreakerView {
        BreakerView {
            samples: Seq::empty(),
            consecutive_failures: 0,
            last_failure_at: None,
            tripped: false,
            health: HealthView::Healthy,
            ..self
        }
    }

    /// The state on a day: a new day starts without profit.
    pub open spec fn on_day(self, today: i64) -> BreakerView {
        if self.day == Some(today) {
            self
        } else {
            BreakerView {
                day: Some(today),
                realized_pnl_today: Decimal::of_parts(0, 0),
                daily_tripped: false,
                ..self
            }
        }
    }

    /// Loss of the day, never negative.
    pub open spec fn loss(self) -> Usd {
        self.realized_pnl_today.opposite().first_greater(Decimal::of_parts(0, 0))
    }

    /// The state after a profit was realized on a day; `None` where the day's
    /// sum is not representable.
    pub open spec fn realized(self, pnl: Usd, today: i64, cap: Usd) -> Option<BreakerView> {
        let rolled = self.on_day(today);
        match rolled.realized_pnl_today.sum(pnl) {
            None => None,
            Some(total) => {
                let added = BreakerView { realized_pnl_today: total, ..rolled };
                Some(
                    BreakerView {
                        daily_tripped: rolled.daily_tripped || added.loss()@ >= cap@,
                        ..added
                    },
                )
            },
        }
    }

    /// The state after a look at the clock and the kill switch. A tripped
    /// breaker waits for the operator; otherwise the cooldown heals.
    pub open spec fn ticked(
        self,
        today: i64,
        now: u64,
        cooldown_secs: u64,
        allows_new_entry: bool,
    ) -> BreakerView {
        let rolled = self.on_day(today);
        if rolled.tripped {
            if allows_new_entry {
                rolled.cleared()
            } else {
                rolled
            }
        } else if rolled.health is Degraded && (rolled.last_failure_at is None || now
            - rolled.last_failure_at->0 >= cooldown_secs * 1000000000) {
            BreakerView {
                samples: Seq::empty(),
                consecutive_failures: 0,
                health: HealthView::Healthy,
                ..rolled
            }
        } else {
            rolled
        }
    }
}

/// Day of an instant, in days since the epoch.
pub open spec fn day_number(now: Timestamp) -> int {
    now.spec_seconds() / 86400
}

/// Day of an instant, in days since the epoch.
pub fn day_of(now: Timestamp) -> (r: i64)
    ensures
        r == day_number(now),
{
    let seconds = now.whole_seconds();
    if seconds >= 0 {
        (seconds as u64 / 86400) as i64
    } else {
        let before = (-(seconds as i128)) as u128;
        let days = (before / 86400) as i64;
        if before % 86400 == 0 {
            -days
        } else {
            -days - 1
        }
    }
}

impl BreakerState {
    /// The state of a breaker that has seen nothing.
    pub fn new() -> (r: BreakerState)
        ensures
            r@ == (BreakerView {
                samples: Seq::empty(),
                consecutive_failures: 0,
                last_failure_at: None,
                health: HealthView::Healthy,
                tripped: false,
                day: None,
                realized_pnl_today: Decimal::of_parts(0, 0),
                daily_tripped: false,
            }),
    {
        let samples: Vec<Sample> = Vec::new();
        BreakerState {
            samples,
            consecutive_failures: 0,
            last_failure_at: None,
            health: VenueHealth::Healthy,
            tripped: false,
            day: None,
            realized_pnl_today: Decimal::zero(),
            daily_tripped: false,
        }
    }

    /// Clears the venue's failure window.
    pub fn reset(&mut self)
        ensures
            final(self)@ == old(self)@.cleared(),
    {
        self.samples = Vec::new();
        self.consecutive_failures = 0;
        self.last_failure_at = None;
        self.tripped = false;
        self.health = VenueHealth::Healthy;
    }

    /// Starts a new day where the day changed.
    pub fn roll_day(&mut self, today: i64)
        ensures
            final(self)@ == old(self)@.on_day(today),
    {
        let same = match self.day {
            Some(day) => day == today,
            None => false,
        };
        if !same {
            self.day = Some(today);
            self.realized_pnl_today = Decimal::zero();
            self.daily_tripped = false;
        }
    }

    /// Loss of the day, never negative.
    pub fn daily_loss(&self) -> (r: Usd)
        ensures
            r == self@.loss(),
            r@ == (if self.realized_pnl_today@ < 0 {
                -self.realized_pnl_today@
            } else {
                0
            }),
    {
        self.realized_pnl_today.negate().first_max_of(Decimal::zero())
    }

    fn prune(&mut self, now: u64, window_secs: u64)
        ensures
            final(self)@ == (BreakerView {
                samples: pruned(old(self)@.samples, now, window_secs),
                ..old(self)@
            }),
    {
        let ghost start = self@;
        while self.samples.len() > 0
            invariant
                pruned(self.samples@, now, window_secs) == pruned(start.samples, now, window_secs),
                self@ == (BreakerView { samples: self.samples@, ..start }),
            ensures
                self.samples@ == pruned(start.samples, now, window_secs),
                self@ == (BreakerView { samples: self.samples@, ..start }),
            decreases self.samples.len(),
        {
            let at = self.samples[0].at;
            let stale = now as i128 - at as i128 > window_secs as i128 * 1000000000;
            if !stale {
                break;
            }
            let ghost before = self.samples@;
            let _ = self.samples.remove(0);
            proof {
                assert(self.samples@ =~= before.drop_first());
            }
        }
    }

    fn count_failures(&self) -> (r: usize)
        ensures
            r == failed(self.samples@),
            r <= self.samples@.len(),
    {
        let mut count: usize = 0;
        let mut i: usize = 0;
        proof {
            assert(self.samples@.take(0) =~= Seq::<Sample>::empty());
        }
        while i < self.samples.len()
            invariant
                i <= self.samples.len(),
                count == failed(self.samples@.take(i as int)),
                count <= i,
            decreases self.samples.len() - i,
        {
            proof {
                assert(self.samples@.take(i + 1).drop_last() =~= self.samples@.take(i as int));
                assert(self.samples@.take(i + 1).last() == self.samples@[i as int]);
            }
            if !self.samples[i].success {
                count = count + 1;
            }
            i = i + 1;
        }
        proof {
            assert(self.samples@.take(self.samples.len() as int) =~= self.samples@);
        }
        count
    }

    /// Takes one more venue answer in, and says whether it trips the kill
    /// switch.
    pub fn record(&mut self, now: u64, success: bool, config: &ExecutionBreakerConfig) -> (tripped:
        bool)
        requires
            old(self).samples@.len() < usize::MAX,
        ensures
            final(self)@ == old(self)@.recorded(now, success, *config),
            tripped == old(self)@.trips(now, success, *config),
    {
        let ghost start = self@;
        self.prune(now, config.venue_window_secs);
        self.samples.push(Sample { at: now, success });
        if success {
            self.consecutive_failures = 0;
        } else {
            if self.consecutive_failures < u32::MAX {
                self.consecutive_failures = self.consecutive_failures + 1;
            }
            self.last_failure_at = Some(now);
        }
        let total: usize = self.samples.len();
        let failures: usize = self.count_failures();
        let scaled: usize = if failures > usize::MAX / 10000 {
            usize::MAX
        } else {
            failures * 10000
        };
        let rate: usize = scaled / total;
        let streak: u32 = self.consecutive_failures;
        proof {
            let t = total as int;
            let f = failures as int;
            assert(scaled as int <= f * 10000);
            assert(scaled as int / t <= 10000) by (nonlinear_arith)
                requires
                    0 <= scaled as int,
                    scaled as int <= f * 10000,
                    f <= t,
                    t > 0,
            ;
        }
        let many = total as u64 >= config.venue_min_window_samples as u64;
        let sustained_failure = streak >= config.venue_consecutive_failures_to_halt || (many
            && rate as u64 >= config.venue_error_rate_bps_to_halt as u64);
        if sustained_failure {
            self.health = VenueHealth::Degraded {
                reason: "venue sustained failure: ".to_owned().concat(
                    write_natural(streak as u128).as_str(),
                ).concat(" consecutive, ").concat(write_natural(rate as u128).as_str()).concat(
                    " bps error rate",
                ),
            };
        } else if streak >= config.venue_consecutive_failures_to_degrade {
            self.health = VenueHealth::Degraded {
                reason: "venue degraded: ".to_owned().concat(
                    write_natural(streak as u128).as_str(),
                ).concat(" consecutive failures"),
            };
        }
        let tripped = sustained_failure && !self.tripped;
        if sustained_failure {
            self.tripped = true;
        }
        proof {
            assert(self@ =~= start.recorded(now, success, *config));
        }
        tripped
    }

    /// Takes a realized profit in, and says whether the day's loss trips the
    /// kill switch. A cap of zero switches this off.
    pub fn observe_realized_pnl(&mut self, pnl: Usd, now: Timestamp, cap: Usd) -> (r: Result<
        bool,
        ExecutionError,
    >)
        ensures
            if cap@ <= 0 {
                r == Ok::<bool, ExecutionError>(false) && final(self)@ == old(self)@
            } else {
                match r {
                    Ok(tripped) => {
                        &&& old(self)@.realized(pnl, day_number(now) as i64, cap) == Some(
                            final(self)@,
                        )
                        &&& final(self)@.loss()@ == (if final(self).realized_pnl_today@ < 0 {
                            -final(self).realized_pnl_today@
                        } else {
                            0
                        })
                        &&& tripped == (final(self)@.daily_tripped && !old(self)@.on_day(
                            day_number(now) as i64,
                        ).daily_tripped)
                    },
                    Err(error) => error@ == ErrorView::DecimalOverflow && old(self)@.realized(
                        pnl,
                        day_number(now) as i64,
                        cap,
                    ) is None && final(self)@ == old(self)@.on_day(day_number(now) as i64),
                }
            },
    {
        if !cap.is_positive() {
            return Ok(false);
        }
        let ghost start = self@;
        let today = day_of(now);
        self.roll_day(today);
        let total = match self.realized_pnl_today.checked_add(pnl) {
            Some(total) => total,
            None => {
                return Err(ExecutionError::DecimalOverflow);
            },
        };
        self.realized_pnl_today = total;
        let tripped = cap.le(self.daily_loss()) && !self.daily_tripped;
        if tripped {
            self.daily_tripped = true;
        }
        Ok(tripped)
    }

    /// Takes a realized profit in, and says what follows for the kill switch and
    /// for the published health. A cap of zero switches this off: nothing is
    /// taken in and nothing follows.
    pub fn observe_day(&mut self, pnl: Usd, now: Timestamp, cap: Usd) -> (r: Result<
        Option<DayObservation>,
        ExecutionError,
    >)
        ensures
            if cap@ <= 0 {
                r == Ok::<Option<DayObservation>, ExecutionError>(None) && final(self)@
                    == old(self)@
            } else {
                let today = day_number(now) as i64;
                match r {
                    Ok(Some(seen)) => {
                        &&& old(self)@.realized(pnl, today, cap) == Some(final(self)@)
                        &&& seen.tripped == (final(self)@.daily_tripped && !old(self)@.on_day(
                            today,
                        ).daily_tripped)
                        &&& seen.loss == final(self)@.loss()
                        &&& combined(final(self)@.health, final(self)@.loss(), cap) == Some(
                            seen.published@,
                        )
                    },
                    Ok(None) => false,
                    Err(error) => error@ == ErrorView::DecimalOverflow && (match old(self)@.realized(
                        pnl,
                        today,
                        cap,
                    ) {
                        None => final(self)@ == old(self)@.on_day(today),
                        Some(after) => final(self)@ == after && degrade_at(cap) is None,
                    }),
                }
            },
    {
        if !cap.is_positive() {
            return Ok(None);
        }
        let tripped = match self.observe_realized_pnl(pnl, now, cap) {
            Ok(tripped) => tripped,
            Err(error) => {
                return Err(error);
            },
        };
        let loss = self.daily_loss();
        match combined_health(&self.health, loss, cap) {
            Some(published) => Ok(Some(DayObservation { tripped, loss, published })),
            None => Err(ExecutionError::DecimalOverflow),
        }
    }

    /// Looks at the clock and the kill switch.
    pub fn tick(&mut self, today: i64, now: u64, cooldown_secs: u64, allows_new_entry: bool)
        ensures
            final(self)@ == old(self)@.ticked(today, now, cooldown_secs, allows_new_entry),
    {
        self.roll_day(today);
        if self.tripped {
            if allows_new_entry {
                self.reset();
            }
        } else {
            let degraded = match self.health {
                VenueHealth::Degraded { .. } => true,
                VenueHealth::Healthy => false,
            };
            if degraded {
                let healed = match self.last_failure_at {
                    Some(last) => now as i128 - last as i128 >= cooldown_secs as i128 * 1000000000,
                    None => true,
                };
                if healed {
                    self.samples = Vec::new();
                    self.consecutive_failures = 0;
                    self.health = VenueHealth::Healthy;
                }
            }
        }
    }
}

/// What follows from a realized profit.
#[derive(Debug)]
pub struct DayObservation {
    /// Whether the day's loss trips the kill switch now.
    pub tripped: bool,
    pub loss: Usd,
    /// The health to publish.
    pub published: VenueHealth,
}

/// Loss at which entries are deferred: four fifths of the cap.
pub open spec fn degrade_at(cap: Usd) -> Option<Usd> {
    match cap.product(Decimal::of_parts(8, 0)) {
        Some(scaled) => scaled.quotient(Decimal::of_parts(10, 0)),
        None => None,
    }
}

/// What the day's loss says about health, if it says anything; the outer
/// option is empty where the threshold is not representable.
pub open spec fn loss_reason(loss: Usd, cap: Usd) -> Option<Option<Seq<char>>> {
    match degrade_at(cap) {
        None => None,
        Some(limit) => if cap@ > 0 && loss@ >= limit@ {
            Some(
                Some(
                    "daily realized loss "@ + loss.text() + " ≥ 80% of cap "@ + cap.text(),
                ),
            )
        } else {
            Some(None)
        },
    }
}

/// The health that is published: impaired where the venue is or the day's loss
/// nears its cap.
pub open spec fn combined(health: HealthView, loss: Usd, cap: Usd) -> Option<HealthView> {
    match loss_reason(loss, cap) {
        None => None,
        Some(daily) => Some(
            match (health, daily) {
                (HealthView::Healthy, None) => HealthView::Healthy,
                (HealthView::Healthy, Some(reason)) => HealthView::Degraded { reason },
                (HealthView::Degraded { reason }, None) => HealthView::Degraded { reason },
                (HealthView::Degraded { reason }, Some(loss)) => HealthView::Degraded {
                    reason: reason + "; "@ + loss,
                },
            },
        ),
    }
}

/// The health that is published; `None` where the loss threshold is not
/// representable.
pub fn combined_health(venue_health: &VenueHealth, daily_loss: Usd, daily_loss_cap: Usd) -> (r:
    Option<VenueHealth>)
    ensures
        match r {
            Some(health) => combined(venue_health@, daily_loss, daily_loss_cap) == Some(health@),
            None => combined(venue_health@, daily_loss, daily_loss_cap) is None,
        },
        daily_loss_cap.exact_tenths(8) && daily_loss_cap@ > 0 ==> degrade_at(daily_loss_cap) is Some
            && degrade_at(daily_loss_cap)->0@ * 10 == daily_loss_cap@ * 8,
{
    let limit = match daily_loss_cap.tenths(8) {
        Some(limit) => limit,
        None => {
            return None;
        },
    };
    let near = daily_loss_cap.is_positive() && limit.le(daily_loss);
    if !near {
        return Some(venue_health.clone());
    }
    let daily = "daily realized loss ".to_owned().concat(daily_loss.to_text().as_str()).concat(
        " ≥ 80% of cap ",
    ).concat(daily_loss_cap.to_text().as_str());
    Some(
        match venue_health {
            VenueHealth::Healthy => VenueHealth::Degraded { reason: daily },
            VenueHealth::Degraded { reason } => VenueHealth::Degraded {
                reason: reason.clone().concat("; ").concat(daily.as_str()),
            },
        },
    )
}

/// The command that trips the kill switch for a dimension of the breaker.
pub fn trip_command(expected_revision: i64, dimension: &str, detail: &str) -> (r:
    SetKillSwitchCommand)
    ensures
        r.expected_revision == expected_revision,
        r.target == KillSwitchState::ExecutionHalted,
        r.actor@ == "system:execution_breaker"@,
        r.reason@ == "execution breaker tripped ("@ + dimension@ + "): "@ + detail@,
        !r.ack,
        r.latch,
{
    SetKillSwitchCommand {
        expected_revision,
        target: KillSwitchState::ExecutionHalted,
        actor: "system:execution_breaker".to_owned(),
        reason: "execution breaker tripped (".to_owned().concat(dimension).concat("): ").concat(
            detail,
        ),
        ack: false,
        latch: true,
    }
}

/// What the day's loss that tripped is reported as.
pub fn daily_loss_detail(loss: Usd, cap: Usd) -> (r: String)
    ensures
        r@ == "daily realized loss "@ + loss.text() + " reached cap "@ + cap.text(),
{
    "daily realized loss ".to_owned().concat(loss.to_text().as_str()).concat(
        " reached cap ",
    ).concat(cap.to_text().as_str())
}

/// Row that records a trip of the kill switch by the breaker.
#[derive(Debug)]
pub struct BreakerAudit {
    pub request_id: String,
    pub actor_username: String,
    pub acting_role: String,
    pub action: String,
    pub resource_id: String,
    pub http_path: String,
    pub http_status: u16,
    pub dimension: String,
    pub reason: String,
}

/// The row that records a trip of the kill switch by the breaker.
pub fn breaker_audit(dimension: &str, reason: &str) -> (r: BreakerAudit)
    ensures
        r.request_id@ == "execution-breaker:"@ + dimension@,
        r.actor_username@ == "system:execution_breaker"@,
        r.acting_role@ == "execution_breaker"@,
        r.action@ == "system.kill_switch.breaker_trip"@,
        r.resource_id@ == "kill_switch"@,
        r.http_path@ == "/system/execution-breaker/trip"@,
        r.http_status == 200,
        r.dimension@ == dimension@,
        r.reason@ == reason@,
{
    BreakerAudit {
        request_id: "execution-breaker:".to_owned().concat(dimension),
        actor_username: "system:execution_breaker".to_owned(),
        acting_role: "execution_breaker".to_owned(),
        action: "system.kill_switch.breaker_trip".to_owned(),
        resource_id: "kill_switch".to_owned(),
        http_path: "/system/execution-breaker/trip".to_owned(),
        http_status: 200,
        dimension: dimension.to_owned(),
        reason: reason.to_owned(),
    }
}

/// A failure episode trips the kill switch at most once: after a trip nothing
/// trips again until the state is cleared.
pub proof fn an_episode_trips_once(
    state: BreakerView,
    now: u64,
    success: bool,
    config: ExecutionBreakerConfig,
)
    ensures
        state.tripped ==> !state.trips(now, success, config) && state.recorded(
            now,
            success,
            config,
        ).tripped,
        state.trips(now, success, config) ==> state.recorded(now, success, config).tripped
            && state.recorded(now, success, config).health is Degraded,
{
}

/// A tripped breaker heals only after the operator has cleared the kill
/// switch, whatever the clock says.
pub proof fn a_trip_waits_for_the_operator(
    state: BreakerView,
    today: i64,
    now: u64,
    cooldown_secs: u64,
)
    requires
        state.tripped,
    ensures
        state.ticked(today, now, cooldown_secs, false).tripped,
        state.ticked(today, now, cooldown_secs, false).health == state.health,
        !state.ticked(today, now, cooldown_secs, true).tripped,
        state.ticked(today, now, cooldown_secs, true).health is Healthy,
{
}

/// Neither a venue answer nor clearing the venue window touches the day's
/// figures.
pub proof fn venue_events_keep_the_day(
    state: BreakerView,
    now: u64,
    success: bool,
    config: ExecutionBreakerConfig,
)
    ensures
        state.recorded(now, success, config).realized_pnl_today == state.realized_pnl_today,
        state.recorded(now, success, config).day == state.day,
        state.recorded(now, success, config).daily_tripped == state.daily_tripped,
        state.cleared().realized_pnl_today == state.realized_pnl_today,
        state.cleared().day == state.day,
        state.cleared().daily_tripped == state.daily_tripped,
{
}

/// On one day the loss trips the kill switch at most once.
pub proof fn a_day_trips_once(state: BreakerView, pnl: Usd, today: i64, cap: Usd)
    requires
        state.day == Some(today),
        state.daily_tripped,
        state.realized(pnl, today, cap) is Some,
    ensures
        state.realized(pnl, today, cap)->0.daily_tripped,
        state.on_day(today).daily_tripped,
{
}

/// The state after profits were realized on one day, one after the other;
/// `None` where the day's sum is not representable.
pub open spec fn realized_all(
    state: BreakerView,
    pnls: Seq<Usd>,
    today: i64,
    cap: Usd,
) -> Option<BreakerView>
    decreases pnls.len(),
{
    if pnls.len() == 0 {
        Some(state)
    } else {
        match realized_all(state, pnls.drop_last(), today, cap) {
            None => None,
            Some(before) => before.realized(pnls.last(), today, cap),
        }
    }
}

/// How many of these profits trip the kill switch.
pub open spec fn day_trips(state: BreakerView, pnls: Seq<Usd>, today: i64, cap: Usd) -> nat
    decreases pnls.len(),
{
    if pnls.len() == 0 {
        0
    } else {
        day_trips(state, pnls.drop_last(), today, cap) + (match (
            realized_all(state, pnls.drop_last(), today, cap),
            realized_all(state, pnls, today, cap),
        ) {
            (Some(before), Some(after)) => if after.daily_tripped && !before.on_day(
                today,
            ).daily_tripped {
                1nat
            } else {
                0nat
            },
            _ => 0nat,
        })
    }
}

/// Sum of profits, in units of `10^-28`.
pub open spec fn total_of(pnls: Seq<Usd>) -> int
    decreases pnls.len(),
{
    if pnls.len() == 0 {
        0
    } else {
        total_of(pnls.drop_last()) + pnls.last()@
    }
}

/// What profits lose in total, never negative, in units of `10^-28`.
pub open spec fn loss_of(pnls: Seq<Usd>) -> int {
    if total_of(pnls) < 0 {
        -total_of(pnls)
    } else {
        0
    }
}

/// Whether the day's loss is kept without rounding after each of these
/// profits.
pub open spec fn keeps_the_loss(state: BreakerView, pnls: Seq<Usd>, today: i64, cap: Usd) -> bool {
    forall|k: int|
        0 < k <= pnls.len() ==> (#[trigger] realized_all(state, pnls.take(k), today, cap)
            matches Some(after) && after.loss()@ == loss_of(pnls.take(k)))
}

/// Whether the loss reaches the cap after one of these profits.
pub open spec fn reaches_the_cap(pnls: Seq<Usd>, cap: Usd) -> bool {
    exists|k: int| 0 < k <= pnls.len() && loss_of(#[trigger] pnls.take(k)) >= cap@
}

proof fn lemma_day_run(state: BreakerView, pnls: Seq<Usd>, today: i64, cap: Usd)
    requires
        !state.on_day(today).daily_tripped,
        keeps_the_loss(state, pnls, today, cap),
    ensures
        realized_all(state, pnls, today, cap) is Some,
        realized_all(state, pnls, today, cap)->0.health == state.health,
        realized_all(state, pnls, today, cap)->0.on_day(today).daily_tripped == reaches_the_cap(
            pnls,
            cap,
        ),
        day_trips(state, pnls, today, cap) == (if reaches_the_cap(pnls, cap) {
            1nat
        } else {
            0nat
        }),
    decreases pnls.len(),
{
    if pnls.len() > 0 {
        let front = pnls.drop_last();
        assert forall|k: int| 0 < k <= front.len() implies (#[trigger] realized_all(
            state,
            front.take(k),
            today,
            cap,
        ) matches Some(after) && after.loss()@ == loss_of(front.take(k))) by {
            assert(front.take(k) =~= pnls.take(k));
            assert(realized_all(state, pnls.take(k), today, cap) is Some);
        }
        lemma_day_run(state, front, today, cap);
        assert(pnls.take(pnls.len() as int) =~= pnls);
        assert(realized_all(state, pnls.take(pnls.len() as int), today, cap) is Some);
        let before = realized_all(state, front, today, cap)->0;
        let after = realized_all(state, pnls, today, cap)->0;
        assert(after.loss()@ == loss_of(pnls));
        assert(reaches_the_cap(pnls, cap) == (reaches_the_cap(front, cap) || loss_of(pnls)
            >= cap@)) by {
            if reaches_the_cap(front, cap) {
                let k = choose|k: int|
                    0 < k <= front.len() && loss_of(#[trigger] front.take(k)) >= cap@;
                assert(front.take(k) =~= pnls.take(k));
                assert(loss_of(pnls.take(k)) >= cap@);
            }
            if loss_of(pnls) >= cap@ {
                assert(loss_of(pnls.take(pnls.len() as int)) >= cap@);
            }
            if reaches_the_cap(pnls, cap) && loss_of(pnls) < cap@ {
                let k = choose|k: int|
                    0 < k <= pnls.len() && loss_of(#[trigger] pnls.take(k)) >= cap@;
                assert(k < pnls.len());
                assert(front.take(k) =~= pnls.take(k));
                assert(loss_of(front.take(k)) >= cap@);
            }
        }
    } else {
        assert(!reaches_the_cap(pnls, cap));
    }
}

/// Over the profits of one day, whatever their order, the loss trips the kill
/// switch exactly once where it ever reaches the cap, and never otherwise. The
/// venue's own health stays as it is; with a healthy venue the published health
/// is impaired exactly where the day's loss is four fifths of the cap or more.
pub proof fn a_day_of_losses_trips_once(
    state: BreakerView,
    pnls: Seq<Usd>,
    today: i64,
    cap: Usd,
)
    requires
        cap@ > 0,
        pnls.len() > 0,
        !state.on_day(today).daily_tripped,
        keeps_the_loss(state, pnls, today, cap),
    ensures
        realized_all(state, pnls, today, cap) is Some,
        day_trips(state, pnls, today, cap) == (if reaches_the_cap(pnls, cap) {
            1nat
        } else {
            0nat
        }),
        ({
            let after = realized_all(state, pnls, today, cap)->0;
            &&& after.health == state.health
            &&& after.daily_tripped == reaches_the_cap(pnls, cap)
            &&& after.loss()@ == loss_of(pnls)
            &&& (degrade_at(cap) is Some && degrade_at(cap)->0@ * 10 == cap@ * 8 && state.health
                is Healthy) ==> combined(after.health, after.loss(), cap) is Some && (combined(
                after.health,
                after.loss(),
                cap,
            )->0 is Degraded <==> loss_of(pnls) * 10 >= cap@ * 8)
        }),
{
    lemma_day_run(state, pnls, today, cap);
    assert(pnls.take(pnls.len() as int) =~= pnls);
    assert(realized_all(state, pnls.take(pnls.len() as int), today, cap) is Some);
    let before = realized_all(state, pnls.drop_last(), today, cap)->0;
    let after = realized_all(state, pnls, today, cap)->0;
    assert(after.day == Some(today));
    assert(after.on_day(today) == after);
}

/// What the breaker is told about.
pub ghost enum BreakerEvent {
    Answer { now: u64, success: bool, config: ExecutionBreakerConfig },
    Tick { today: i64, now: u64, cooldown_secs: u64, allows_new_entry: bool },
}

impl BreakerEvent {
    /// Whether this is a look at a kill switch that admits new entries.
    pub open spec fn lets_in(self) -> bool {
        self matches BreakerEvent::Tick { allows_new_entry, .. } && allows_new_entry
    }
}

/// The state after events, one after the other.
pub open spec fn after_events(state: BreakerView, events: Seq<BreakerEvent>) -> BreakerView
    decreases events.len(),
{
    if events.len() == 0 {
        state
    } else {
        let before = after_events(state, events.drop_last());
        match events.last() {
            BreakerEvent::Answer { now, success, config } => before.recorded(now, success, config),
            BreakerEvent::Tick { today, now, cooldown_secs, allows_new_entry } => before.ticked(
                today,
                now,
                cooldown_secs,
                allows_new_entry,
            ),
        }
    }
}

/// How many of these events trip the kill switch.
pub open spec fn venue_trips(state: BreakerView, events: Seq<BreakerEvent>) -> nat
    decreases events.len(),
{
    if events.len() == 0 {
        0
    } else {
        let before = after_events(state, events.drop_last());
        venue_trips(state, events.drop_last()) + (match events.last() {
            BreakerEvent::Answer { now, success, config } => if before.trips(now, success, config) {
                1nat
            } else {
                0nat
            },
            BreakerEvent::Tick { .. } => 0nat,
        })
    }
}

/// However long it lasts, a trip is not healed by time: while the kill switch
/// keeps new entries out, no run of answers and ticks trips again, and the
/// published health stays impaired under any loss cap.
pub proof fn a_trip_holds_while_entries_are_kept_out(
    state: BreakerView,
    events: Seq<BreakerEvent>,
    cap: Usd,
)
    requires
        state.tripped,
        state.health is Degraded,
        forall|i: int| 0 <= i < events.len() ==> !(#[trigger] events[i]).lets_in(),
    ensures
        after_events(state, events).tripped,
        after_events(state, events).health is Degraded,
        venue_trips(state, events) == 0,
        combined(
            after_events(state, events).health,
            after_events(state, events).loss(),
            cap,
        ) matches Some(published) ==> published is Degraded,
    decreases events.len(),
{
    if events.len() > 0 {
        let front = events.drop_last();
        assert forall|i: int| 0 <= i < front.len() implies !(#[trigger] front[i]).lets_in() by {
            assert(front[i] == events[i]);
        }
        a_trip_holds_while_entries_are_kept_out(state, front, cap);
        assert(!events[events.len() - 1].lets_in());
    }
}

/// The first tick that finds new entries admitted clears the venue's window:
/// the published health is impaired only where the day's loss impairs it, and
/// the next sustained failure, whenever it comes, trips the kill switch again.
pub proof fn admitting_entries_ends_the_trip(
    state: BreakerView,
    events: Seq<BreakerEvent>,
    today: i64,
    now: u64,
    cooldown_secs: u64,
    cap: Usd,
    answers: Seq<BreakerEvent>,
)
    requires
        state.tripped,
        state.health is Degraded,
        forall|i: int| 0 <= i < events.len() ==> !(#[trigger] events[i]).lets_in(),
        forall|i: int| 0 <= i < answers.len() ==> (#[trigger] answers[i]) is Answer,
    ensures
        ({
            let after = after_events(state, events).ticked(today, now, cooldown_secs, true);
            &&& !after.tripped && after.health is Healthy
            &&& after.samples.len() == 0 && after.consecutive_failures == 0
            &&& after.last_failure_at is None
            &&& combined(after.health, after.loss(), cap) matches Some(published) ==> (published
                is Degraded <==> cap@ > 0 && after.loss()@ >= degrade_at(cap)->0@)
            &&& venue_trips(after, answers) == (if after_events(after, answers).tripped {
                1nat
            } else {
                0nat
            })
            &&& after_events(after, answers).tripped == fails_sustainedly(after, answers)
        }),
{
    a_trip_holds_while_entries_are_kept_out(state, events, cap);
    let after = after_events(state, events).ticked(today, now, cooldown_secs, true);
    lemma_answers(after, answers);
}

/// Whether one of these answers shows a sustained failure.
pub open spec fn fails_sustainedly(state: BreakerView, answers: Seq<BreakerEvent>) -> bool
    decreases answers.len(),
{
    answers.len() > 0 && (fails_sustainedly(state, answers.drop_last()) || (match answers.last() {
        BreakerEvent::Answer { config, .. } => {
            let after = after_events(state, answers);
            sustained(after.samples, after.consecutive_failures, config)
        },
        BreakerEvent::Tick { .. } => false,
    }))
}

proof fn lemma_answers(state: BreakerView, answers: Seq<BreakerEvent>)
    requires
        !state.tripped,
        forall|i: int| 0 <= i < answers.len() ==> (#[trigger] answers[i]) is Answer,
    ensures
        after_events(state, answers).tripped == fails_sustainedly(state, answers),
        venue_trips(state, answers) == (if fails_sustainedly(state, answers) {
            1nat
        } else {
            0nat
        }),
    decreases answers.len(),
{
    if answers.len() > 0 {
        let front = answers.drop_last();
        assert forall|i: int| 0 <= i < front.len() implies (#[trigger] front[i]) is Answer by {
            assert(front[i] == answers[i]);
        }
        lemma_answers(state, front);
        assert(answers[answers.len() - 1] is Answer);
    }
}

/// Where samples were taken in time order, the window holds exactly those that
/// are not outdated.
pub proof fn the_window_holds_the_recent(samples: Seq<Sample>, now: u64, window_secs: u64)
    requires
        forall|i: int, j: int|
            0 <= i <= j < samples.len() ==> (#[trigger] samples[i]).at <= (
            #[trigger] samples[j]).at,
    ensures
        forall|i: int|
            0 <= i < pruned(samples, now, window_secs).len() ==> !outdated(
                #[trigger] pruned(samples, now, window_secs)[i],
                now,
                window_secs,
            ),
        forall|i: int|
            0 <= i < samples.len() && !outdated(#[trigger] samples[i], now, window_secs)
                ==> pruned(samples, now, window_secs).contains(samples[i]),
    decreases samples.len(),
{
    if samples.len() > 0 && outdated(samples[0], now, window_secs) {
        let rest = samples.drop_first();
        assert forall|i: int, j: int| 0 <= i <= j < rest.len() implies (
        #[trigger] rest[i]).at <= (#[trigger] rest[j]).at by {
            assert(rest[i] == samples[i + 1]);
            assert(rest[j] == samples[j + 1]);
        }
        the_window_holds_the_recent(rest, now, window_secs);
        let kept = pruned(rest, now, window_secs);
        assert(pruned(samples, now, window_secs) == kept);
        assert forall|i: int| 0 <= i < pruned(samples, now, window_secs).len() implies !outdated(
            #[trigger] pruned(samples, now, window_secs)[i],
            now,
            window_secs,
        ) by {
            assert(!outdated(kept[i], now, window_secs));
        }
        assert forall|i: int|
            0 <= i < samples.len() && !outdated(#[trigger] samples[i], now, window_secs) implies
            pruned(samples, now, window_secs).contains(samples[i]) by {
            assert(rest[i - 1] == samples[i]);
        }
    } else {
        assert(pruned(samples, now, window_secs) == samples);
        assert forall|i: int| 0 <= i < samples.len() implies !outdated(
            #[trigger] samples[i],
            now,
            window_secs,
        ) by {
            assert(samples[0].at <= samples[i].at);
        }
        assert forall|i: int| 0 <= i < pruned(samples, now, window_secs).len() implies !outdated(
            #[trigger] pruned(samples, now, window_secs)[i],
            now,
            window_secs,
        ) by {
            assert(!outdated(samples[i], now, window_secs));
        }
        assert forall|i: int|
            0 <= i < samples.len() && !outdated(#[trigger] samples[i], now, window_secs) implies
            samples.contains(samples[i]) by {}
    }
}

} // verus!
