use vstd::prelude::*;

use crate::arith::mul_sat_usize;

verus! {

pub const CORE_PRESSURE_SCHEMA_VERSION: u16 = 2;

pub const RUNQUEUE_ELEVATED_THRESHOLD: usize = 8;
pub const RUNQUEUE_HIGH_THRESHOLD: usize = 16;
pub const RUNQUEUE_CRITICAL_THRESHOLD: usize = 32;
pub const SATURATION_ELEVATED_PERCENT: usize = 50;
pub const SATURATION_HIGH_PERCENT: usize = 80;
pub const SATURATION_CRITICAL_PERCENT: usize = 95;
pub const RUNQUEUE_AVG_MILLI_SCALE: usize = 1000;
pub const PERCENT_SCALE: usize = 100;
pub const IMBALANCE_ELEVATED_THRESHOLD: usize = 4;
pub const IMBALANCE_HIGH_THRESHOLD: usize = 8;
pub const IMBALANCE_CRITICAL_THRESHOLD: usize = 16;

#[derive(Debug, Clone, Copy, PartialEq, Eq, Structural)]
pub enum CorePressureClass {
    Nominal,
    Elevated,
    High,
    Critical,
}

#[derive(Debug, Clone, Copy, PartialEq, Eq, Structural)]
pub enum SchedulerPressureClass {
    Nominal,
    Elevated,
    High,
    Critical,
}

/// The latency bias of the runtime governor, which moves the thresholds.
#[derive(Debug, Clone, Copy, PartialEq, Eq, Structural)]
pub enum GovernorBias {
    Aggressive,
    Balanced,
    Relaxed,
}

#[derive(Debug, Clone, Copy)]
pub struct CorePressureSnapshot {
    pub schema_version: u16,
    pub online_cpus: usize,
    pub runqueue_total: usize,
    pub runqueue_max: usize,
    pub runqueue_avg_milli: usize,
    pub rt_starvation_alert: bool,
    pub rt_forced_reschedules: u64,
    pub watchdog_stall_detections: u64,
    pub net_queue_limit: usize,
    pub net_rx_depth: usize,
    pub net_tx_depth: usize,
    pub net_saturation_percent: usize,
    pub lb_imbalance_p50: usize,
    pub lb_imbalance_p90: usize,
    pub lb_imbalance_p99: usize,
    pub lb_prefer_local_forced_moves: u64,
    pub class: CorePressureClass,
    pub scheduler_class: SchedulerPressureClass,
}

/// What a pressure snapshot is taken from: the run queue length of each
/// online CPU and the counters of the real-time, watchdog, network and load
/// balancing subsystems.
#[derive(Debug)]
pub struct PressureInputs {
    pub runqueue_lens: Vec<usize>,
    pub rt_starvation_alert: bool,
    pub rt_forced_reschedules: u64,
    pub watchdog_stall_detections: u64,
    pub net_queue_limit: usize,
    pub net_rx_depth: usize,
    pub net_tx_depth: usize,
    pub lb_imbalance_p50: usize,
    pub lb_imbalance_p90: usize,
    pub lb_imbalance_p99: usize,
    pub lb_prefer_local_forced_moves: u64,
    pub bias: GovernorBias,
}

pub open spec fn sat_add(a: int, b: int) -> int {
    if a + b > usize::MAX { usize::MAX as int } else { a + b }
}

pub open spec fn sat_mul(a: int, b: int) -> int {
    if a * b > usize::MAX { usize::MAX as int } else { a * b }
}

pub open spec fn max_int(a: int, b: int) -> int {
    if a >= b { a } else { b }
}

/// A threshold moved by the governor's bias: a quarter of it (at least one)
/// lower for an aggressive bias, higher for a relaxed one; never below one.
pub open spec fn adjusted_threshold(base: int, bias: GovernorBias) -> int {
    let step = max_int(base / 4, 1);
    match bias {
        GovernorBias::Aggressive => max_int(if base - step < 0 { 0 } else { base - step }, 1),
        GovernorBias::Relaxed => sat_add(base, step),
        GovernorBias::Balanced => max_int(base, 1),
    }
}

pub open spec fn core_class_spec(
    runqueue_max: int,
    saturation_percent: int,
    rt_starvation_alert: bool,
    watchdog_stall_detections: int,
    bias: GovernorBias,
) -> CorePressureClass {
    if watchdog_stall_detections > 0 || runqueue_max >= adjusted_threshold(32, bias)
        || saturation_percent >= adjusted_threshold(95, bias) {
        CorePressureClass::Critical
    } else if rt_starvation_alert || runqueue_max >= adjusted_threshold(16, bias)
        || saturation_percent >= adjusted_threshold(80, bias) {
        CorePressureClass::High
    } else if runqueue_max >= adjusted_threshold(8, bias) || saturation_percent
        >= adjusted_threshold(50, bias) {
        CorePressureClass::Elevated
    } else {
        CorePressureClass::Nominal
    }
}

pub open spec fn scheduler_class_spec(
    runqueue_max: int,
    lb_imbalance_p99: int,
    prefer_local_forced_moves: int,
    rt_starvation_alert: bool,
    bias: GovernorBias,
) -> SchedulerPressureClass {
    if rt_starvation_alert || prefer_local_forced_moves > 0 || runqueue_max >= adjusted_threshold(
        32,
        bias,
    ) || lb_imbalance_p99 >= adjusted_threshold(16, bias) {
        SchedulerPressureClass::Critical
    } else if runqueue_max >= adjusted_threshold(16, bias) || lb_imbalance_p99
        >= adjusted_threshold(8, bias) {
        SchedulerPressureClass::High
    } else if runqueue_max >= adjusted_threshold(8, bias) || lb_imbalance_p99
        >= adjusted_threshold(4, bias) {
        SchedulerPressureClass::Elevated
    } else {
        SchedulerPressureClass::Nominal
    }
}

/// Numeric rank of a class, for comparing severities.
pub open spec fn core_rank(c: CorePressureClass) -> int {
    match c {
        CorePressureClass::Nominal => 0,
        CorePressureClass::Elevated => 1,
        CorePressureClass::High => 2,
        CorePressureClass::Critical => 3,
    }
}

pub open spec fn scheduler_rank(c: SchedulerPressureClass) -> int {
    match c {
        SchedulerPressureClass::Nominal => 0,
        SchedulerPressureClass::Elevated => 1,
        SchedulerPressureClass::High => 2,
        SchedulerPressureClass::Critical => 3,
    }
}

/// Saturating sum of run queue lengths.
pub open spec fn runqueue_sum(s: Seq<usize>) -> int
    decreases s.len(),
{
    if s.len() == 0 {
        0
    } else {
        sat_add(runqueue_sum(s.drop_last()), s.last() as int)
    }
}

/// Longest run queue (zero when there is no CPU).
pub open spec fn runqueue_longest(s: Seq<usize>) -> int
    decreases s.len(),
{
    if s.len() == 0 {
        0
    } else {
        max_int(runqueue_longest(s.drop_last()), s.last() as int)
    }
}

/// Fill level of the fuller network queue, in percent of the queue limit.
pub open spec fn saturation_spec(limit: int, rx: int, tx: int) -> int {
    let l = max_int(limit, 1);
    max_int(sat_mul(rx, 100) / l, sat_mul(tx, 100) / l)
}

pub fn governor_adjusted_threshold(base: usize, latency_bias: GovernorBias) -> (r: usize)
    ensures
        r as int == adjusted_threshold(base as int, latency_bias),
{
    let quarter = base / 4;
    let step = if quarter > 1 { quarter } else { 1 };
    match latency_bias {
        GovernorBias::Aggressive => {
            let lowered = base.saturating_sub(step);
            if lowered > 1 { lowered } else { 1 }
        },
        GovernorBias::Relaxed => base.saturating_add(step),
        GovernorBias::Balanced => if base > 1 { base } else { 1 },
    }
}

pub fn classify_pressure(
    runqueue_max: usize,
    saturation_percent: usize,
    rt_starvation_alert: bool,
    watchdog_stall_detections: u64,
    latency_bias: GovernorBias,
) -> (c: CorePressureClass)
    ensures
        c == core_class_spec(
            runqueue_max as int,
            saturation_percent as int,
            rt_starvation_alert,
            watchdog_stall_detections as int,
            latency_bias,
        ),
{
    let critical_runqueue = governor_adjusted_threshold(RUNQUEUE_CRITICAL_THRESHOLD, latency_bias);
    let high_runqueue = governor_adjusted_threshold(RUNQUEUE_HIGH_THRESHOLD, latency_bias);
    let elevated_runqueue = governor_adjusted_threshold(RUNQUEUE_ELEVATED_THRESHOLD, latency_bias);
    let critical_saturation = governor_adjusted_threshold(
        SATURATION_CRITICAL_PERCENT,
        latency_bias,
    );
    let high_saturation = governor_adjusted_threshold(SATURATION_HIGH_PERCENT, latency_bias);
    let elevated_saturation = governor_adjusted_threshold(
        SATURATION_ELEVATED_PERCENT,
        latency_bias,
    );

    if watchdog_stall_detections > 0 || runqueue_max >= critical_runqueue || saturation_percent
        >= critical_saturation {
        return CorePressureClass::Critical;
    }
    if rt_starvation_alert || runqueue_max >= high_runqueue || saturation_percent
        >= high_saturation {
        return CorePressureClass::High;
    }
    if runqueue_max >= elevated_runqueue || saturation_percent >= elevated_saturation {
        return CorePressureClass::Elevated;
    }
    CorePressureClass::Nominal
}

pub fn classify_scheduler_pressure(
    runqueue_max: usize,
    lb_imbalance_p99: usize,
    prefer_local_forced_moves: u64,
    rt_starvation_alert: bool,
    latency_bias: GovernorBias,
) -> (c: SchedulerPressureClass)
    ensures
        c == scheduler_class_spec(
            runqueue_max as int,
            lb_imbalance_p99 as int,
            prefer_local_forced_moves as int,
            rt_starvation_alert,
            latency_bias,
        ),
{
    let critical_runqueue = governor_adjusted_threshold(RUNQUEUE_CRITICAL_THRESHOLD, latency_bias);
    let high_runqueue = governor_adjusted_threshold(RUNQUEUE_HIGH_THRESHOLD, latency_bias);
    let elevated_runqueue = governor_adjusted_threshold(RUNQUEUE_ELEVATED_THRESHOLD, latency_bias);
    let critical_imbalance = governor_adjusted_threshold(
        IMBALANCE_CRITICAL_THRESHOLD,
        latency_bias,
    );
    let high_imbalance = governor_adjusted_threshold(IMBALANCE_HIGH_THRESHOLD, latency_bias);
    let elevated_imbalance = governor_adjusted_threshold(
        IMBALANCE_ELEVATED_THRESHOLD,
        latency_bias,
    );

    if rt_starvation_alert || prefer_local_forced_moves > 0 || runqueue_max >= critical_runqueue
        || lb_imbalance_p99 >= critical_imbalance {
        return SchedulerPressureClass::Critical;
    }
    if runqueue_max >= high_runqueue || lb_imbalance_p99 >= high_imbalance {
        return SchedulerPressureClass::High;
    }
    if runqueue_max >= elevated_runqueue || lb_imbalance_p99 >= elevated_imbalance {
        return SchedulerPressureClass::Elevated;
    }
    SchedulerPressureClass::Nominal
}

/// `s` is the snapshot taken of `inputs`: every field as `snapshot` fills it.
pub open spec fn is_snapshot_of(inputs: PressureInputs, s: CorePressureSnapshot) -> bool {
    &&& s.schema_version == CORE_PRESSURE_SCHEMA_VERSION
    &&& s.online_cpus == inputs.runqueue_lens@.len()
    &&& s.runqueue_total as int == runqueue_sum(inputs.runqueue_lens@)
    &&& s.runqueue_max as int == runqueue_longest(inputs.runqueue_lens@)
    &&& s.runqueue_avg_milli as int == (if inputs.runqueue_lens@.len() == 0 {
            0
        } else {
            sat_mul(runqueue_sum(inputs.runqueue_lens@), 1000) / (inputs.runqueue_lens@.len() as int)
        })
    &&& s.rt_starvation_alert == inputs.rt_starvation_alert
    &&& s.rt_forced_reschedules == inputs.rt_forced_reschedules
    &&& s.watchdog_stall_detections == inputs.watchdog_stall_detections
    &&& s.net_queue_limit == inputs.net_queue_limit
    &&& s.net_rx_depth == inputs.net_rx_depth
    &&& s.net_tx_depth == inputs.net_tx_depth
    &&& s.net_saturation_percent as int == saturation_spec(
            inputs.net_queue_limit as int,
            inputs.net_rx_depth as int,
            inputs.net_tx_depth as int,
        )
    &&& s.lb_imbalance_p50 == inputs.lb_imbalance_p50
    &&& s.lb_imbalance_p90 == inputs.lb_imbalance_p90
    &&& s.lb_imbalance_p99 == inputs.lb_imbalance_p99
    &&& s.lb_prefer_local_forced_moves == inputs.lb_prefer_local_forced_moves
    &&& s.class == core_class_spec(
            s.runqueue_max as int,
            s.net_saturation_percent as int,
            inputs.rt_starvation_alert,
            inputs.watchdog_stall_detections as int,
            inputs.bias,
        )
    &&& s.scheduler_class == scheduler_class_spec(
            s.runqueue_max as int,
            inputs.lb_imbalance_p99 as int,
            inputs.lb_prefer_local_forced_moves as int,
            inputs.rt_starvation_alert,
            inputs.bias,
        )
}

/// Takes a pressure snapshot from the subsystems' counters.
pub fn snapshot(inputs: &PressureInputs) -> (s: CorePressureSnapshot)
    ensures
        is_snapshot_of(*inputs, s),
{
    let lens = &inputs.runqueue_lens;
    let mut total: usize = 0;
    let mut max: usize = 0;
    let mut i: usize = 0;
    while i < lens.len()
        invariant
            i <= lens@.len(),
            total as int == runqueue_sum(lens@.take(i as int)),
            max as int == runqueue_longest(lens@.take(i as int)),
        decreases lens@.len() - i,
    {
        let len = lens[i];
        proof {
            assert(lens@.take(i + 1).drop_last() =~= lens@.take(i as int));
        }
        total = total.saturating_add(len);
        if len > max {
            max = len;
        }
        i = i + 1;
    }
    assert(lens@.take(lens@.len() as int) =~= lens@);
    let online_cpus = lens.len();

    let runqueue_avg_milli = if online_cpus == 0 {
        0
    } else {
        mul_sat_usize(total, RUNQUEUE_AVG_MILLI_SCALE) / online_cpus
    };

    let queue_limit = if inputs.net_queue_limit > 1 { inputs.net_queue_limit } else { 1 };
    let rx_percent = mul_sat_usize(inputs.net_rx_depth, PERCENT_SCALE) / queue_limit;
    let tx_percent = mul_sat_usize(inputs.net_tx_depth, PERCENT_SCALE) / queue_limit;
    let saturation_percent = if rx_percent >= tx_percent { rx_percent } else { tx_percent };

    let class = classify_pressure(
        max,
        saturation_percent,
        inputs.rt_starvation_alert,
        inputs.watchdog_stall_detections,
        inputs.bias,
    );
    let scheduler_class = classify_scheduler_pressure(
        max,
        inputs.lb_imbalance_p99,
        inputs.lb_prefer_local_forced_moves,
        inputs.rt_starvation_alert,
        inputs.bias,
    );

    CorePressureSnapshot {
        schema_version: CORE_PRESSURE_SCHEMA_VERSION,
        online_cpus,
        runqueue_total: total,
        runqueue_max: max,
        runqueue_avg_milli,
        rt_starvation_alert: inputs.rt_starvation_alert,
        rt_forced_reschedules: inputs.rt_forced_reschedules,
        watchdog_stall_detections: inputs.watchdog_stall_detections,
        net_queue_limit: inputs.net_queue_limit,
        net_rx_depth: inputs.net_rx_depth,
        net_tx_depth: inputs.net_tx_depth,
        net_saturation_percent: saturation_percent,
        lb_imbalance_p50: inputs.lb_imbalance_p50,
        lb_imbalance_p90: inputs.lb_imbalance_p90,
        lb_imbalance_p99: inputs.lb_imbalance_p99,
        lb_prefer_local_forced_moves: inputs.lb_prefer_local_forced_moves,
        class,
        scheduler_class,
    }
}

/// One iteration of the memory-pressure service: takes a snapshot and hands
/// it back when the system is under high or critical pressure, for the
/// caller to log a warning.
pub fn on_pressure_tick(inputs: &PressureInputs) -> (r: Option<CorePressureSnapshot>)
    ensures
        ({
            let c = core_class_spec(
                runqueue_longest(inputs.runqueue_lens@),
                saturation_spec(
                    inputs.net_queue_limit as int,
                    inputs.net_rx_depth as int,
                    inputs.net_tx_depth as int,
                ),
                inputs.rt_starvation_alert,
                inputs.watchdog_stall_detections as int,
                inputs.bias,
            );
            r is Some <==> (c == CorePressureClass::Critical || c == CorePressureClass::High)
        }),
        r matches Some(s) ==> s.runqueue_max as int == runqueue_longest(inputs.runqueue_lens@)
            && s.net_saturation_percent as int == saturation_spec(
            inputs.net_queue_limit as int,
            inputs.net_rx_depth as int,
            inputs.net_tx_depth as int,
        ) && s.online_cpus == inputs.runqueue_lens@.len(),
        r matches Some(s) ==> is_snapshot_of(*inputs, s),
{
    let s = snapshot(inputs);
    match s.class {
        CorePressureClass::Critical | CorePressureClass::High => Some(s),
        _ => None,
    }
}

/// The governor bias orders every threshold: aggressive at or below
/// balanced at or below relaxed; aggressive strictly lowers a threshold of
/// two or more, and relaxed strictly raises one below the word's maximum.
pub proof fn law_governor_bias_orders_thresholds(base: int)
    requires
        0 <= base <= usize::MAX,
    ensures
        adjusted_threshold(base, GovernorBias::Aggressive) <= adjusted_threshold(
            base,
            GovernorBias::Balanced,
        ),
        adjusted_threshold(base, GovernorBias::Balanced) <= adjusted_threshold(
            base,
            GovernorBias::Relaxed,
        ),
        base >= 2 ==> adjusted_threshold(base, GovernorBias::Aggressive) < base,
        1 <= base < usize::MAX ==> adjusted_threshold(base, GovernorBias::Relaxed) > base,
{
}

/// Heavier load never lowers a classification: with the other inputs
/// fixed, a longer runqueue, more network saturation or a larger
/// imbalance gives a class at least as high.
pub proof fn law_pressure_class_monotone(
    runqueue_lo: int,
    runqueue_hi: int,
    saturation_lo: int,
    saturation_hi: int,
    imbalance_lo: int,
    imbalance_hi: int,
    rt_starvation_alert: bool,
    watchdog_stall_detections: int,
    prefer_local_forced_moves: int,
    bias: GovernorBias,
)
    requires
        runqueue_lo <= runqueue_hi,
        saturation_lo <= saturation_hi,
        imbalance_lo <= imbalance_hi,
    ensures
        core_rank(
            core_class_spec(runqueue_lo, saturation_lo, rt_starvation_alert, watchdog_stall_detections, bias),
        ) <= core_rank(
            core_class_spec(runqueue_hi, saturation_hi, rt_starvation_alert, watchdog_stall_detections, bias),
        ),
        scheduler_rank(
            scheduler_class_spec(runqueue_lo, imbalance_lo, prefer_local_forced_moves, rt_starvation_alert, bias),
        ) <= scheduler_rank(
            scheduler_class_spec(runqueue_hi, imbalance_hi, prefer_local_forced_moves, rt_starvation_alert, bias),
        ),
{
}

/// A more aggressive governor never classifies lower: the same load is
/// classified at least as high under an aggressive bias as under a
/// balanced one, and under a balanced one as under a relaxed one.
pub proof fn law_aggressive_bias_classifies_higher(
    runqueue_max: int,
    saturation_percent: int,
    lb_imbalance_p99: int,
    rt_starvation_alert: bool,
    watchdog_stall_detections: int,
    prefer_local_forced_moves: int,
)
    ensures
        core_rank(
            core_class_spec(runqueue_max, saturation_percent, rt_starvation_alert, watchdog_stall_detections, GovernorBias::Relaxed),
        ) <= core_rank(
            core_class_spec(runqueue_max, saturation_percent, rt_starvation_alert, watchdog_stall_detections, GovernorBias::Balanced),
        ),
        core_rank(
            core_class_spec(runqueue_max, saturation_percent, rt_starvation_alert, watchdog_stall_detections, GovernorBias::Balanced),
        ) <= core_rank(
            core_class_spec(runqueue_max, saturation_percent, rt_starvation_alert, watchdog_stall_detections, GovernorBias::Aggressive),
        ),
        scheduler_rank(
            scheduler_class_spec(runqueue_max, lb_imbalance_p99, prefer_local_forced_moves, rt_starvation_alert, GovernorBias::Relaxed),
        ) <= scheduler_rank(
            scheduler_class_spec(runqueue_max, lb_imbalance_p99, prefer_local_forced_moves, rt_starvation_alert, GovernorBias::Balanced),
        ),
        scheduler_rank(
            scheduler_class_spec(runqueue_max, lb_imbalance_p99, prefer_local_forced_moves, rt_starvation_alert, GovernorBias::Balanced),
        ) <= scheduler_rank(
            scheduler_class_spec(runqueue_max, lb_imbalance_p99, prefer_local_forced_moves, rt_starvation_alert, GovernorBias::Aggressive),
        ),
{
}

/// Each core pressure level is reached exactly when one of its own triggers
/// fires, every threshold moved by the bias: at least elevated when the
/// longest runqueue reaches 8 or network saturation reaches 50 percent (or a
/// higher trigger fires); at least high on a real-time starvation alert, a
/// runqueue of 16 or a saturation of 80 percent (or a critical trigger);
/// critical on a watchdog stall, a runqueue of 32 or a saturation of 95
/// percent. With no trigger at all the class is nominal.
pub proof fn law_core_pressure_levels(
    runqueue_max: int,
    saturation_percent: int,
    rt_starvation_alert: bool,
    watchdog_stall_detections: int,
    bias: GovernorBias,
)
    requires
        watchdog_stall_detections >= 0,
    ensures
        ({
            let rank = core_rank(
                core_class_spec(runqueue_max, saturation_percent, rt_starvation_alert, watchdog_stall_detections, bias),
            );
            let critical = watchdog_stall_detections != 0 || runqueue_max >= adjusted_threshold(32, bias)
                || saturation_percent >= adjusted_threshold(95, bias);
            let high = rt_starvation_alert || runqueue_max >= adjusted_threshold(16, bias)
                || saturation_percent >= adjusted_threshold(80, bias);
            let elevated = runqueue_max >= adjusted_threshold(8, bias)
                || saturation_percent >= adjusted_threshold(50, bias);
            &&& (rank == 3 <==> critical)
            &&& (rank >= 2 <==> (critical || high))
            &&& (rank >= 1 <==> (critical || high || elevated))
            &&& (rank == 0 <==> !(critical || high || elevated))
        }),
        saturation_percent >= adjusted_threshold(50, bias) ==> core_rank(
            core_class_spec(runqueue_max, saturation_percent, rt_starvation_alert, watchdog_stall_detections, bias),
        ) >= 1,
        watchdog_stall_detections == 0 && !rt_starvation_alert && runqueue_max < adjusted_threshold(8, bias)
            && adjusted_threshold(50, bias) <= saturation_percent < adjusted_threshold(80, bias)
            ==> core_class_spec(runqueue_max, saturation_percent, rt_starvation_alert, watchdog_stall_detections, bias)
            == CorePressureClass::Elevated,
{
}

} // verus!
