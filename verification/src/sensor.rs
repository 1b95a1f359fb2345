//! The policy of sensor acquisition: which readings count, how they are
//! calibrated, and when a failed read is retried, the device reset, or the
//! cycle given up and the driver created anew.
//!
//! The device itself is read elsewhere. One poll cycle is a run of attempts
//! that ends with one publication; after each attempt `emitter_poll` says
//! what to do next.

use vstd::prelude::*;
use crate::config::{ConfigInstance, ConfigModel};

verus! {

/// The largest humidity that is published: 100 %, in thousandths of a percent.
pub const MAX_RH: i32 = 100000;

/// The number of attempts to read in one poll cycle.
pub const MAX_ATTEMPTS: u8 = 10;

/// The pause before another attempt, in milliseconds.
pub const RETRY_DELAY_MS: u32 = 100;

/// The pause after a reset command was sent, in milliseconds.
pub const RESET_DELAY_MS: u32 = 250;

/// A reading: temperature in thousandths of a degree Celsius and relative
/// humidity in thousandths of a percent.
#[derive(Copy, Clone, PartialEq, Eq, Debug, Structural)]
pub struct SensorMetrics {
    pub temp: i32,
    pub rh: i32,
}

/// What to do after an attempt to read.
#[derive(Copy, Clone, PartialEq, Eq, Debug)]
pub enum SensorStep {
    /// Wait `delay_ms`, then read again; where `reset`, send the device a
    /// reset command before waiting.
    Retry { reset: bool, delay_ms: u32 },
    /// The cycle is over. Publish `metrics` to the subscribers, wait
    /// `delay_ms`, and, where `reload`, create the driver anew before the
    /// next cycle.
    Publish { metrics: Option<SensorMetrics>, delay_ms: u32, reload: bool },
}

/// Whether what an attempt gave counts as a reading: the device answered, and
/// both temperature and humidity are above zero.
pub open spec fn valid_reading(reading: Option<(i32, i32)>) -> bool {
    reading matches Some((temp, rh)) && temp > 0 && rh > 0
}

/// A humidity reading moved by the calibration offset, where one is
/// configured, and held at 100 % where it would be above.
pub open spec fn calibrated_rh(cfg: ConfigModel, rh: i32) -> i32 {
    let adjusted = match cfg.sensor_calibration_rh_adj {
        Some(adj) => rh + adj,
        None => rh as int,
    };
    if adjusted > MAX_RH {
        MAX_RH
    } else {
        adjusted as i32
    }
}

/// What follows an attempt that gave `reading`, after `failed` attempts of
/// the same cycle had failed.
pub open spec fn next_step(cfg: ConfigModel, failed: u8, reading: Option<(i32, i32)>) -> SensorStep {
    match reading {
        Some((temp, rh)) if temp > 0 && rh > 0 => SensorStep::Publish {
            metrics: Some(SensorMetrics { temp, rh: calibrated_rh(cfg, rh) }),
            delay_ms: cfg.sensor_delay_ms,
            reload: false,
        },
        _ => if failed + 1 >= MAX_ATTEMPTS {
            SensorStep::Publish { metrics: None, delay_ms: cfg.sensor_delay_err_ms, reload: true }
        } else if failed + 1 == MAX_ATTEMPTS - 1 {
            SensorStep::Retry { reset: true, delay_ms: RESET_DELAY_MS }
        } else {
            SensorStep::Retry { reset: false, delay_ms: RETRY_DELAY_MS }
        },
    }
}

/// The number of failed attempts of the running cycle after a step: none
/// once the cycle is over, one more after a retry.
pub open spec fn failed_after(step: SensorStep, failed: u8) -> u8 {
    match step {
        SensorStep::Publish { .. } => 0,
        SensorStep::Retry { .. } => (failed + 1) as u8,
    }
}

/// Applies the calibration offset to a humidity reading and holds the result
/// at 100 %.
fn calibrate_rh(cfg: &ConfigInstance, rh: i32) -> (r: i32)
    requires
        rh > 0,
    ensures
        r == calibrated_rh(cfg@, rh),
        r <= MAX_RH,
{
    let adjusted: i64 = match cfg.sensor_calibration_rh_adj {
        Some(adj) => rh as i64 + adj as i64,
        None => rh as i64,
    };
    if adjusted > MAX_RH as i64 {
        MAX_RH
    } else {
        adjusted as i32
    }
}

/// Decides what follows one attempt to read the sensor.
///
/// `reading` is what the attempt gave: temperature and humidity, or nothing
/// if the device failed. `failed` counts the failed attempts of the running
/// cycle and `last` is the last known good reading, which the other
/// components look up.
///
/// A reading with temperature and humidity above zero ends the cycle: it is
/// calibrated, stored in `last` as the last known good reading and
/// published, and the next cycle starts after the configured delay. Any
/// other attempt has failed. The last attempt of the budget ends the cycle
/// with the publication of an absent reading, the error delay, and a fresh
/// driver; `last` keeps the reading it holds. The attempt before it is
/// followed by a reset command and a longer pause, every earlier one by a
/// short pause.
pub fn emitter_poll(
    cfg: &ConfigInstance,
    failed: &mut u8,
    last: &mut Option<SensorMetrics>,
    reading: Option<(i32, i32)>,
) -> (step: SensorStep)
    ensures
        step == next_step(cfg@, *old(failed), reading),
        *final(failed) == failed_after(step, *old(failed)),
        *final(failed) < MAX_ATTEMPTS,
        *final(last) == match step {
            SensorStep::Publish { metrics: Some(reading), .. } => Some(reading),
            _ => *old(last),
        },
{
    if let Some((temp, rh)) = reading {
        if temp > 0 && rh > 0 {
            let metrics = SensorMetrics { temp, rh: calibrate_rh(cfg, rh) };
            *failed = 0;
            *last = Some(metrics);
            return SensorStep::Publish {
                metrics: Some(metrics),
                delay_ms: cfg.sensor_delay_ms,
                reload: false,
            };
        }
    }
    if *failed >= MAX_ATTEMPTS - 1 {
        *failed = 0;
        SensorStep::Publish { metrics: None, delay_ms: cfg.sensor_delay_err_ms, reload: true }
    } else if *failed == MAX_ATTEMPTS - 2 {
        *failed = *failed + 1;
        SensorStep::Retry { reset: true, delay_ms: RESET_DELAY_MS }
    } else {
        *failed = *failed + 1;
        SensorStep::Retry { reset: false, delay_ms: RETRY_DELAY_MS }
    }
}

/// Decides what follows a driver that could not be created: an absent
/// reading is published, and after the error delay the driver is created
/// again. This goes on for as long as it takes.
pub fn emitter_init_failed(cfg: &ConfigInstance) -> (step: SensorStep)
    ensures
        step == (SensorStep::Publish {
            metrics: None,
            delay_ms: cfg@.sensor_delay_err_ms,
            reload: true,
        }),
{
    SensorStep::Publish { metrics: None, delay_ms: cfg.sensor_delay_err_ms, reload: true }
}

/// The number of failed attempts of the running cycle after the first `n`
/// of the given attempts, the first of which starts a cycle.
pub open spec fn failed_before(cfg: ConfigModel, readings: Seq<Option<(i32, i32)>>, n: nat) -> u8
    decreases n,
{
    if n == 0 {
        0
    } else {
        let failed = failed_before(cfg, readings, (n - 1) as nat);
        failed_after(next_step(cfg, failed, readings[n - 1]), failed)
    }
}

/// What follows the attempt `i` of the given attempts, the first of which
/// starts a cycle.
pub open spec fn step_at(cfg: ConfigModel, readings: Seq<Option<(i32, i32)>>, i: nat) -> SensorStep {
    next_step(cfg, failed_before(cfg, readings, i), readings[i as int])
}

/// However the attempts turn out, fewer failed attempts than the budget are
/// counted when an attempt is made.
pub proof fn lemma_failed_below_budget(
    cfg: ConfigModel,
    readings: Seq<Option<(i32, i32)>>,
    n: nat,
)
    ensures
        failed_before(cfg, readings, n) < MAX_ATTEMPTS,
    decreases n,
{
    if n > 0 {
        lemma_failed_below_budget(cfg, readings, (n - 1) as nat);
    }
}

/// A cycle in which every attempt of the budget fails publishes exactly
/// once: each attempt but the last is followed by a retry and publishes
/// nothing, the one before the last with a reset command, and the last is
/// followed by the publication of an absent reading together with the
/// request for a fresh driver. The attempt after it starts a new cycle.
pub proof fn lemma_exhausted_cycle(cfg: ConfigModel, readings: Seq<Option<(i32, i32)>>)
    requires
        readings.len() >= MAX_ATTEMPTS,
        forall|i: int| 0 <= i < MAX_ATTEMPTS ==> !valid_reading(#[trigger] readings[i]),
    ensures
        forall|i: nat|
            i < MAX_ATTEMPTS - 2 ==> #[trigger] step_at(cfg, readings, i) == (SensorStep::Retry {
                reset: false,
                delay_ms: RETRY_DELAY_MS,
            }),
        step_at(cfg, readings, (MAX_ATTEMPTS - 2) as nat) == (SensorStep::Retry {
            reset: true,
            delay_ms: RESET_DELAY_MS,
        }),
        step_at(cfg, readings, (MAX_ATTEMPTS - 1) as nat) == (SensorStep::Publish {
            metrics: None,
            delay_ms: cfg.sensor_delay_err_ms,
            reload: true,
        }),
        failed_before(cfg, readings, MAX_ATTEMPTS as nat) == 0,
{
    assert forall|i: nat| i < MAX_ATTEMPTS implies #[trigger] failed_before(cfg, readings, i)
        == i by {
        lemma_all_failed(cfg, readings, i);
    }
    assert(failed_before(cfg, readings, MAX_ATTEMPTS as nat) == 0) by {
        lemma_all_failed(cfg, readings, (MAX_ATTEMPTS - 1) as nat);
    }
}

/// While every attempt fails and the budget is not used up, the count of
/// failed attempts is the number of attempts made.
proof fn lemma_all_failed(cfg: ConfigModel, readings: Seq<Option<(i32, i32)>>, n: nat)
    requires
        n < MAX_ATTEMPTS,
        readings.len() >= n,
        forall|i: int| 0 <= i < n ==> !valid_reading(#[trigger] readings[i]),
    ensures
        failed_before(cfg, readings, n) == n,
    decreases n,
{
    if n > 0 {
        lemma_all_failed(cfg, readings, (n - 1) as nat);
    }
}

/// A publication of an absent reading comes only when the whole budget of
/// attempts has failed, and always asks for a fresh driver; a publication of
/// a reading never does.
pub proof fn lemma_absent_only_when_exhausted(
    cfg: ConfigModel,
    failed: u8,
    reading: Option<(i32, i32)>,
)
    ensures
        next_step(cfg, failed, reading) matches SensorStep::Publish { metrics, reload, .. } ==> {
            &&& metrics is None <==> reload
            &&& metrics is None ==> !valid_reading(reading) && failed + 1 >= MAX_ATTEMPTS
            &&& metrics matches Some(m) ==> m.rh <= MAX_RH && valid_reading(reading)
        },
{
}

} // verus!
