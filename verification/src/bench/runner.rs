//! The decisions of a benchmark run: which phases run with which load, how
//! each request outcome is counted, when a stress ramp stops, and how the
//! results are named.
//!
//! Timing, the HTTP traffic and the latency histogram belong to the program
//! that drives a run; it reports each request's outcome here.

use vstd::prelude::*;

use crate::bench::config::{BurstConfig, LoadConfig, ProxyConfig, ScenarioConfig, StressConfig};
use crate::text::concat_str;

verus! {

/// The load settings stored with a result.
#[derive(Debug, Clone, Copy, PartialEq, Eq, Structural)]
pub struct ScenarioSummary {
    pub duration_secs: u64,
    pub target_rps: u32,
    pub concurrency: u32,
    pub warmup_secs: u64,
}

impl ScenarioSummary {
    /// The summary of a load configuration.
    pub fn from_load(load: &LoadConfig) -> (r: Self)
        ensures
            r.duration_secs == load.duration_secs,
            r.target_rps == load.target_rps,
            r.concurrency == load.concurrency,
            r.warmup_secs == load.warmup_secs,
    {
        ScenarioSummary {
            duration_secs: load.duration_secs,
            target_rps: load.target_rps,
            concurrency: load.concurrency,
            warmup_secs: load.warmup_secs,
        }
    }
}

/// Failed requests by cause.
#[derive(Debug, Clone, Copy, PartialEq, Eq, Structural)]
pub struct ErrorMetrics {
    pub timeout: u64,
    pub connection_refused: u64,
    pub status_4xx: u64,
    pub status_5xx: u64,
    pub other: u64,
}

impl ErrorMetrics {
    /// No errors yet.
    pub open spec fn is_zero(self) -> bool {
        self.timeout == 0 && self.connection_refused == 0 && self.status_4xx == 0
            && self.status_5xx == 0 && self.other == 0
    }

    /// No errors yet.
    pub fn new() -> (r: Self)
        ensures
            r.is_zero(),
    {
        ErrorMetrics { timeout: 0, connection_refused: 0, status_4xx: 0, status_5xx: 0, other: 0 }
    }
}

/// How one request ended.
#[derive(Debug, Clone, Copy, PartialEq, Eq, Structural)]
pub enum RequestOutcome {
    /// A response with this status code.
    Status(u16),
    /// The request timed out.
    Timeout,
    /// No connection could be made.
    ConnectFailed,
    /// Any other transport error.
    OtherError,
}

/// 2xx.
pub open spec fn is_success(status: u16) -> bool {
    200 <= status < 300
}

/// 4xx.
pub open spec fn is_client_error(status: u16) -> bool {
    400 <= status < 500
}

/// 5xx.
pub open spec fn is_server_error(status: u16) -> bool {
    500 <= status < 600
}

/// A request counter one step on; these counters wrap around.
pub open spec fn bumped(n: u64) -> u64 {
    if n == u64::MAX { 0 } else { (n + 1) as u64 }
}

/// The running counts of a benchmark.
#[derive(Debug, Clone, Copy, PartialEq, Eq, Structural)]
pub struct Tally {
    pub successful: u64,
    pub failed: u64,
    pub errors: ErrorMetrics,
}

/// The error counter that a load-phase outcome raises has room for one more.
pub open spec fn load_error_fits(e: ErrorMetrics, o: RequestOutcome) -> bool {
    match o {
        RequestOutcome::Status(s) => (is_client_error(s) ==> e.status_4xx < u64::MAX) && (
        is_server_error(s) ==> e.status_5xx < u64::MAX),
        RequestOutcome::Timeout => e.timeout < u64::MAX,
        RequestOutcome::ConnectFailed => e.connection_refused < u64::MAX,
        RequestOutcome::OtherError => e.other < u64::MAX,
    }
}

/// The counts after one load-phase outcome: a 2xx counts as a success; a
/// 4xx, 5xx or transport error counts as a failure and by its cause; any
/// other status counts as neither.
pub open spec fn after_load(t: Tally, o: RequestOutcome) -> Tally {
    match o {
        RequestOutcome::Status(s) => if is_success(s) {
            Tally { successful: bumped(t.successful), ..t }
        } else if is_client_error(s) {
            Tally {
                failed: bumped(t.failed),
                errors: ErrorMetrics { status_4xx: (t.errors.status_4xx + 1) as u64, ..t.errors },
                ..t
            }
        } else if is_server_error(s) {
            Tally {
                failed: bumped(t.failed),
                errors: ErrorMetrics { status_5xx: (t.errors.status_5xx + 1) as u64, ..t.errors },
                ..t
            }
        } else {
            t
        },
        RequestOutcome::Timeout => Tally {
            failed: bumped(t.failed),
            errors: ErrorMetrics { timeout: (t.errors.timeout + 1) as u64, ..t.errors },
            ..t
        },
        RequestOutcome::ConnectFailed => Tally {
            failed: bumped(t.failed),
            errors: ErrorMetrics {
                connection_refused: (t.errors.connection_refused + 1) as u64,
                ..t.errors
            },
            ..t
        },
        RequestOutcome::OtherError => Tally {
            failed: bumped(t.failed),
            errors: ErrorMetrics { other: (t.errors.other + 1) as u64, ..t.errors },
            ..t
        },
    }
}

/// The counts after one burst outcome: a 2xx is a success, anything else a
/// failure; causes are not counted.
pub open spec fn after_burst(t: Tally, o: RequestOutcome) -> Tally {
    match o {
        RequestOutcome::Status(s) => if is_success(s) {
            Tally { successful: bumped(t.successful), ..t }
        } else {
            Tally { failed: bumped(t.failed), ..t }
        },
        _ => Tally { failed: bumped(t.failed), ..t },
    }
}

impl ErrorMetrics {
    /// Whether the counter a load-phase outcome raises has room for one more.
    pub fn can_count(&self, outcome: RequestOutcome) -> (r: bool)
        ensures
            r == load_error_fits(*self, outcome),
    {
        match outcome {
            RequestOutcome::Status(s) => (!(400 <= s && s < 500) || self.status_4xx < u64::MAX) && (!(500
                <= s && s < 600) || self.status_5xx < u64::MAX),
            RequestOutcome::Timeout => self.timeout < u64::MAX,
            RequestOutcome::ConnectFailed => self.connection_refused < u64::MAX,
            RequestOutcome::OtherError => self.other < u64::MAX,
        }
    }
}

impl Tally {
    /// Nothing counted yet.
    pub open spec fn is_empty(self) -> bool {
        self.successful == 0 && self.failed == 0 && self.errors.is_zero()
    }

    /// Nothing counted yet.
    pub fn new() -> (r: Self)
        ensures
            r.is_empty(),
    {
        Tally { successful: 0, failed: 0, errors: ErrorMetrics::new() }
    }

    /// Counts one outcome of a load phase.
    pub fn record_load(&mut self, outcome: RequestOutcome)
        requires
            load_error_fits(old(self).errors, outcome),
        ensures
            *final(self) == after_load(*old(self), outcome),
    {
        match outcome {
            RequestOutcome::Status(s) => {
                if 200 <= s && s < 300 {
                    self.successful = self.successful.wrapping_add(1);
                } else if 400 <= s && s < 500 {
                    self.failed = self.failed.wrapping_add(1);
                    self.errors.status_4xx = self.errors.status_4xx + 1;
                } else if 500 <= s && s < 600 {
                    self.failed = self.failed.wrapping_add(1);
                    self.errors.status_5xx = self.errors.status_5xx + 1;
                }
            },
            RequestOutcome::Timeout => {
                self.failed = self.failed.wrapping_add(1);
                self.errors.timeout = self.errors.timeout + 1;
            },
            RequestOutcome::ConnectFailed => {
                self.failed = self.failed.wrapping_add(1);
                self.errors.connection_refused = self.errors.connection_refused + 1;
            },
            RequestOutcome::OtherError => {
                self.failed = self.failed.wrapping_add(1);
                self.errors.other = self.errors.other + 1;
            },
        }
    }

    /// Counts one outcome of a burst.
    pub fn record_burst(&mut self, outcome: RequestOutcome)
        ensures
            *final(self) == after_burst(*old(self), outcome),
    {
        match outcome {
            RequestOutcome::Status(s) => {
                if 200 <= s && s < 300 {
                    self.successful = self.successful.wrapping_add(1);
                } else {
                    self.failed = self.failed.wrapping_add(1);
                }
            },
            _ => {
                self.failed = self.failed.wrapping_add(1);
            },
        }
    }

    /// All requests counted, successful or failed.
    pub fn total(&self) -> (r: u64)
        requires
            self.successful + self.failed <= u64::MAX,
        ensures
            r == self.successful + self.failed,
    {
        self.successful + self.failed
    }
}

// ---------------------------------------------------------------------------
// Phases
// ---------------------------------------------------------------------------

/// A phase of steady load.
#[derive(Debug, Clone, Copy, PartialEq, Eq, Structural)]
pub struct LoadPhase {
    pub target_rps: u32,
    pub concurrency: u32,
    pub duration_secs: u64,
}

/// The warmup before the measured phase, when asked for and the scenario
/// has one: half the rate and half the connections, for the warmup time.
pub fn warmup_phase(load: &LoadConfig, warmup: bool) -> (r: Option<LoadPhase>)
    ensures
        r is Some <==> (warmup && load.warmup_secs > 0),
        r matches Some(p) ==> p.target_rps == load.target_rps / 2 && p.concurrency
            == load.concurrency / 2 && p.duration_secs == load.warmup_secs,
{
    if warmup && load.warmup_secs > 0 {
        Some(
            LoadPhase {
                target_rps: load.target_rps / 2,
                concurrency: load.concurrency / 2,
                duration_secs: load.warmup_secs,
            },
        )
    } else {
        None
    }
}

/// The measured phase of a scenario.
#[derive(Debug, Clone, Copy, PartialEq, Eq, Structural)]
pub enum MainPhase {
    /// Ramp the rate up step by step.
    Stress(StressConfig),
    /// Send bursts with pauses between them.
    Burst(BurstConfig),
    /// Steady load.
    Load(LoadPhase),
}

/// The measured phase: a stress ramp when the scenario has one, else its
/// bursts, else steady load at its rate for its duration.
pub fn main_phase(config: &ScenarioConfig) -> (r: MainPhase)
    ensures
        config.stress matches Some(s) ==> r == MainPhase::Stress(s),
        config.stress is None ==> (config.burst matches Some(b) ==> r == MainPhase::Burst(b)),
        config.stress is None && config.burst is None ==> r == MainPhase::Load(
            LoadPhase {
                target_rps: config.load.target_rps,
                concurrency: config.load.concurrency,
                duration_secs: config.load.duration_secs,
            },
        ),
{
    match config.stress {
        Some(s) => MainPhase::Stress(s),
        None => match config.burst {
            Some(b) => MainPhase::Burst(b),
            None => MainPhase::Load(
                LoadPhase {
                    target_rps: config.load.target_rps,
                    concurrency: config.load.concurrency,
                    duration_secs: config.load.duration_secs,
                },
            ),
        },
    }
}

// ---------------------------------------------------------------------------
// Stress ramp
// ---------------------------------------------------------------------------

/// Whether `failed` out of `failed + successful` requests is an error rate
/// above `threshold_milli` thousandths of a percent (never, when nothing
/// was sent).
pub open spec fn rate_exceeds(failed: int, successful: int, threshold_milli: int) -> bool {
    failed + successful > 0 && failed * 100000 > threshold_milli * (failed + successful)
}

/// Whether the errors of a step exceed the threshold.
pub fn error_rate_exceeds(failed: u64, successful: u64, threshold_milli: u64) -> (r: bool)
    ensures
        r == rate_exceeds(failed as int, successful as int, threshold_milli as int),
{
    let total: u128 = failed as u128 + successful as u128;
    if total == 0 {
        false
    } else if threshold_milli >= 100000 {
        // A rate never passes one hundred percent.
        assert(failed * 100000 <= threshold_milli * (failed + successful)) by (nonlinear_arith)
            requires
                threshold_milli >= 100000,
                failed >= 0,
                successful >= 0,
        ;
        false
    } else {
        assert(failed * 100000 <= u64::MAX * 100000) by (nonlinear_arith);
        assert(threshold_milli * total <= 100000 * (2 * u64::MAX as int)) by (nonlinear_arith)
            requires
                threshold_milli < 100000,
                total <= 2 * u64::MAX as int,
        ;
        (failed as u128) * 100000 > (threshold_milli as u128) * total
    }
}

/// The first rate of a ramp, unless it starts above its maximum.
pub fn stress_start(stress: &StressConfig) -> (r: Option<u32>)
    ensures
        r is Some <==> stress.start_rps <= stress.max_rps,
        r matches Some(rate) ==> rate == stress.start_rps,
{
    if stress.start_rps <= stress.max_rps {
        Some(stress.start_rps)
    } else {
        None
    }
}

/// What follows a step of the ramp.
#[derive(Debug, Clone, Copy, PartialEq, Eq, Structural)]
pub enum StressStep {
    /// The step's error rate passed the threshold: this rate is the
    /// breaking point.
    BreakingPoint,
    /// Run the next step at this rate.
    Next(u32),
    /// The next rate would pass the maximum.
    Finished,
}

/// The step that follows running rate `current`: a breaking point when the
/// error rate passed the threshold, else the rate one step up, unless that
/// passes the maximum.
pub open spec fn next_step(stress: StressConfig, current: u32, step_failed: u64, step_successful: u64) -> StressStep {
    if rate_exceeds(step_failed as int, step_successful as int, stress.error_threshold_milli as int) {
        StressStep::BreakingPoint
    } else if current + stress.step <= stress.max_rps {
        StressStep::Next((current + stress.step) as u32)
    } else {
        StressStep::Finished
    }
}

/// The step after running rate `current` with the given step counts: stop
/// at a breaking point when the error rate passed the threshold, else go up
/// by the step, unless that passes the maximum.
pub fn stress_after_step(stress: &StressConfig, current: u32, step_failed: u64, step_successful: u64) -> (r:
    StressStep)
    requires
        !rate_exceeds(step_failed as int, step_successful as int, stress.error_threshold_milli as int)
            ==> current + stress.step <= u32::MAX,
    ensures
        r == next_step(*stress, current, step_failed, step_successful),
{
    if error_rate_exceeds(step_failed, step_successful, stress.error_threshold_milli) {
        StressStep::BreakingPoint
    } else {
        let next = current + stress.step;
        if next <= stress.max_rps {
            StressStep::Next(next)
        } else {
            StressStep::Finished
        }
    }
}

/// The cause counters of a tally, added up.
pub open spec fn causes_total(e: ErrorMetrics) -> int {
    e.timeout + e.connection_refused + e.status_4xx + e.status_5xx + e.other
}

/// In a load phase every failure has exactly one cause: counting an
/// outcome keeps the failures equal to the sum of the cause counters.
pub proof fn law_failures_have_causes(t: Tally, o: RequestOutcome)
    requires
        t.failed == causes_total(t.errors),
        t.failed < u64::MAX,
        load_error_fits(t.errors, o),
    ensures
        after_load(t, o).failed == causes_total(after_load(t, o).errors),
{
}

/// A load phase counts each 2xx, 4xx and 5xx response and each transport
/// error once; responses with other statuses are not counted.
pub proof fn law_load_counts_once(t: Tally, o: RequestOutcome)
    requires
        t.successful < u64::MAX,
        t.failed < u64::MAX,
        load_error_fits(t.errors, o),
    ensures
        (match o {
            RequestOutcome::Status(s) => is_success(s) || is_client_error(s) || is_server_error(s),
            _ => true,
        }) ==> after_load(t, o).successful + after_load(t, o).failed == t.successful + t.failed + 1,
        (match o {
            RequestOutcome::Status(s) => !(is_success(s) || is_client_error(s) || is_server_error(s)),
            _ => false,
        }) ==> after_load(t, o) == t,
{
}

/// A burst counts every request once, as a success or a failure.
pub proof fn law_burst_counts_once(t: Tally, o: RequestOutcome)
    requires
        t.successful < u64::MAX,
        t.failed < u64::MAX,
    ensures
        after_burst(t, o).successful + after_burst(t, o).failed == t.successful + t.failed + 1,
        after_burst(t, o).errors == t.errors,
{
}

/// In a burst only a 2xx answer is a success: it raises the success counter
/// and nothing else; any other status, and every transport failure, raises
/// the failure counter and nothing else.
pub proof fn law_burst_success_is_2xx(t: Tally, o: RequestOutcome)
    ensures
        (o matches RequestOutcome::Status(s) && 200 <= s < 300) ==> after_burst(t, o) == (Tally {
            successful: if t.successful == u64::MAX { 0 } else { (t.successful + 1) as u64 },
            ..t
        }),
        !(o matches RequestOutcome::Status(s) && 200 <= s < 300) ==> after_burst(t, o) == (Tally {
            failed: if t.failed == u64::MAX { 0 } else { (t.failed + 1) as u64 },
            ..t
        }),
{
}

/// In the load phase a 2xx answer is a success; a 4xx, a 5xx, a timeout, a
/// refused connection or another error is a failure counted under its
/// cause; a status outside 2xx, 4xx and 5xx is not counted at all.
pub proof fn law_load_outcomes(t: Tally, o: RequestOutcome)
    ensures
        (o matches RequestOutcome::Status(s) && 200 <= s < 300) ==> after_load(t, o).successful
            != t.successful && after_load(t, o).failed == t.failed && after_load(t, o).errors
            == t.errors,
        (o matches RequestOutcome::Status(s) && 400 <= s < 500) ==> after_load(t, o).successful
            == t.successful && after_load(t, o).failed != t.failed
            && after_load(t, o).errors.status_4xx == (t.errors.status_4xx + 1) as u64
            && after_load(t, o).errors.status_5xx == t.errors.status_5xx,
        (o matches RequestOutcome::Status(s) && 500 <= s < 600) ==> after_load(t, o).successful
            == t.successful && after_load(t, o).failed != t.failed
            && after_load(t, o).errors.status_5xx == (t.errors.status_5xx + 1) as u64
            && after_load(t, o).errors.status_4xx == t.errors.status_4xx,
        (o matches RequestOutcome::Status(s) && (s < 200 || (300 <= s < 400) || s >= 600))
            ==> after_load(t, o) == t,
        o is Timeout ==> after_load(t, o).failed != t.failed && after_load(t, o).errors.timeout
            == (t.errors.timeout + 1) as u64 && after_load(t, o).successful == t.successful,
        o is ConnectFailed ==> after_load(t, o).failed != t.failed
            && after_load(t, o).errors.connection_refused == (t.errors.connection_refused + 1) as u64
            && after_load(t, o).successful == t.successful,
        o is OtherError ==> after_load(t, o).failed != t.failed && after_load(t, o).errors.other
            == (t.errors.other + 1) as u64 && after_load(t, o).successful == t.successful,
{
}

/// The error-rate test, for a threshold in thousandths of a percent: a step
/// without failures never passes it; a step where every request failed
/// passes every threshold below one hundred percent and none at or above;
/// a rate exactly at the threshold does not pass it; and more failures,
/// fewer successes or a lower threshold only make it pass sooner.
pub proof fn law_error_rate(f: nat, s: nat, th: nat, f2: nat, s2: nat, th2: nat)
    ensures
        f == 0 ==> !rate_exceeds(f as int, s as int, th as int),
        f > 0 && s == 0 ==> (rate_exceeds(f as int, s as int, th as int) <==> th < 100000),
        f * 100000 == th * (f + s) ==> !rate_exceeds(f as int, s as int, th as int),
        rate_exceeds(f as int, s as int, th as int) && f2 >= f && s2 <= s && th2 <= th
            ==> rate_exceeds(f2 as int, s2 as int, th2 as int),
{
    if f > 0 && s == 0 {
        assert(f * 100000 > th * f <==> th < 100000) by (nonlinear_arith)
            requires
                f > 0,
        ;
    }
    if rate_exceeds(f as int, s as int, th as int) && f2 >= f && s2 <= s && th2 <= th {
        assert(f2 * 100000 > th2 * (f2 + s2)) by (nonlinear_arith)
            requires
                f * 100000 > th * (f + s),
                f2 >= f,
                s2 <= s,
                th2 <= th,
                f >= 0,
                s2 >= 0,
                th2 >= 0,
        ;
    }
}

/// The ramp only goes up, by exactly one step, and never past its maximum.
pub proof fn law_ramp_goes_up(stress: StressConfig, current: u32, step_failed: u64, step_successful: u64)
    ensures
        next_step(stress, current, step_failed, step_successful) matches StressStep::Next(n) ==> n
            == current + stress.step && n <= stress.max_rps,
{
}

/// A step without failures never stops the ramp.
pub proof fn law_no_failures_no_stop(stress: StressConfig, current: u32, step_successful: u64)
    ensures
        next_step(stress, current, 0, step_successful) != StressStep::BreakingPoint,
{
}

/// A step whose requests all failed stops the ramp when the threshold is
/// below one hundred percent.
pub proof fn law_all_failed_stops(stress: StressConfig, current: u32, step_failed: u64)
    requires
        step_failed > 0,
        stress.error_threshold_milli < 100000,
    ensures
        next_step(stress, current, step_failed, 0) == StressStep::BreakingPoint,
{
    assert(step_failed * 100000 > stress.error_threshold_milli * step_failed) by (nonlinear_arith)
        requires
            step_failed > 0,
            stress.error_threshold_milli < 100000,
    ;
}

// ---------------------------------------------------------------------------
// Bursts
// ---------------------------------------------------------------------------

/// Requests each worker sends in a burst: the burst split evenly over the
/// workers, the remainder dropped.
pub fn requests_per_worker(burst: &BurstConfig) -> (r: u32)
    requires
        burst.concurrency > 0,
    ensures
        r == burst.burst_size / burst.concurrency,
{
    burst.burst_size / burst.concurrency
}

/// Whether a pause follows burst number `i` (counting from zero): after
/// every burst but the last.
pub fn pause_after(burst: &BurstConfig, i: u32) -> (r: bool)
    requires
        i < burst.burst_count,
    ensures
        r == (i + 1 < burst.burst_count),
{
    i < burst.burst_count - 1
}

// ---------------------------------------------------------------------------
// Naming
// ---------------------------------------------------------------------------

/// The URL requests go to: the override when given, else the proxy's URL.
pub fn base_url(proxy: &ProxyConfig, upstream: Option<&str>) -> (r: String)
    ensures
        r@ == (match upstream {
            Some(u) => u@,
            None => proxy.url@,
        }),
{
    match upstream {
        Some(u) => u.to_owned(),
        None => proxy.url.clone(),
    }
}

/// `a-b-c`.
fn dashed(a: &str, b: &str, c: &str) -> (r: String)
    ensures
        r@ == a@ + "-"@ + b@ + "-"@ + c@,
{
    let ab = concat_str(concat_str(a, "-").as_str(), b);
    concat_str(concat_str(ab.as_str(), "-").as_str(), c)
}

/// The id of a run: its time stamp, scenario and proxy, joined by dashes.
pub fn run_id(stamp: &str, scenario: &str, proxy: &str) -> (r: String)
    ensures
        r@ == stamp@ + "-"@ + scenario@ + "-"@ + proxy@,
{
    dashed(stamp, scenario, proxy)
}

/// The file a result is saved in: the run id with `.json`.
pub fn result_file_name(stamp: &str, scenario: &str, proxy: &str) -> (r: String)
    ensures
        r@ == stamp@ + "-"@ + scenario@ + "-"@ + proxy@ + ".json"@,
{
    concat_str(dashed(stamp, scenario, proxy).as_str(), ".json")
}

/// The proxies a run targets: all five for `all`, else the one named.
pub fn benchmark_targets(target: &str) -> (r: Vec<String>)
    ensures
        target@ == "all"@ ==> r@.len() == 5 && r@[0]@ == "rproxy"@ && r@[1]@ == "nginx"@
            && r@[2]@ == "traefik"@ && r@[3]@ == "caddy"@ && r@[4]@ == "envoy"@,
        target@ != "all"@ ==> r@.len() == 1 && r@[0]@ == target@,
{
    let mut r: Vec<String> = Vec::new();
    if crate::text::chars_eq(&crate::text::chars_of(target), &crate::text::chars_of("all")) {
        r.push("rproxy".to_owned());
        r.push("nginx".to_owned());
        r.push("traefik".to_owned());
        r.push("caddy".to_owned());
        r.push("envoy".to_owned());
    } else {
        r.push(target.to_owned());
    }
    r
}

} // verus!
