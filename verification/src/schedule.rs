//! The auto-schedule stepper: while the mode is Auto it walks the configured
//! setpoints in a cycle and says which one is active.
//!
//! The stepper waits, `Pending`, until the humidity has entered the band of
//! the setpoint, then holds the setpoint, `Running`, for its run time, and
//! goes on to the next one. Leaving Auto cancels it.

use vstd::prelude::*;
use vstd::string::*;
use crate::config::{ConfigInstance, ConfigModel, MisterAutoSchedule};
use crate::error::{general_fault, Result};
use crate::event::Delivery;
use crate::mode::Mode;
use crate::sensor::SensorMetrics;
use crate::time::{elapsed, elapsed_ms};

verus! {

/// How long the stepper sleeps between two looks at the humidity while it
/// waits for a setpoint's band, in milliseconds.
pub const AUTO_SCHEDULE_PENDING_SLEEP_MS: u32 = 100;

/// Where the stepper stands with its setpoint.
#[derive(Copy, Clone, PartialEq, Eq, Debug, Structural)]
pub enum AutoScheduleMode {
    /// No setpoint is active.
    Initial,
    /// Waiting for the humidity to enter the setpoint's band.
    Pending,
    /// Holding the setpoint for its run time.
    Running,
}

/// The state of the stepper: the setpoint's index in the schedule and, while
/// `Running`, the time at which the run began.
#[derive(Copy, Clone, PartialEq, Eq, Debug, Structural)]
pub struct AutoScheduleState {
    pub mode: AutoScheduleMode,
    pub idx: usize,
    pub start_time: u32,
}

/// What a poll of the stepper hands back.
#[derive(Copy, Clone, PartialEq, Eq, Debug)]
pub enum SchedulePoll {
    /// The mode is not Auto: there is nothing to wait for.
    Idle,
    /// The stepper has looked at the last reading.
    Checked,
    /// Sleep for `ms` milliseconds or until a message on the channel of
    /// changed modes arrives, whichever comes first, then wake the stepper.
    Sleep { ms: u64 },
}

/// What ended the stepper's sleep.
#[derive(Copy, Clone, PartialEq, Eq, Debug)]
pub enum ScheduleWake {
    /// Something arrived on the channel of changed modes.
    ModeChanged(Delivery<Mode>),
    /// The time was over.
    Timer,
}

/// Whether a humidity lies in the band of a target: from the switch-on
/// humidity up to the target.
pub open spec fn in_band(cfg: ConfigModel, target_rh: i32, rh: i32) -> bool {
    cfg.mister_auto_on_rh(target_rh) <= rh <= target_rh
}

/// The index that follows `idx` in a cyclic schedule of `len` setpoints.
pub open spec fn next_idx(len: nat, idx: nat) -> nat {
    if idx + 1 < len {
        idx + 1
    } else {
        0
    }
}

impl AutoScheduleState {
    /// The state of a stepper that has no setpoint.
    pub open spec fn initial() -> AutoScheduleState {
        AutoScheduleState { mode: AutoScheduleMode::Initial, idx: 0, start_time: 0 }
    }

    /// A stepper that has a setpoint has one of the schedule.
    pub open spec fn wf(self, cfg: ConfigModel) -> bool {
        self.mode != AutoScheduleMode::Initial ==> self.idx < cfg.mister_auto_schedule.len()
    }

    /// The schedule entry at the stepper's index, if there is one.
    pub open spec fn entry(self, cfg: ConfigModel) -> Option<MisterAutoSchedule> {
        if self.idx < cfg.mister_auto_schedule.len() {
            Some(cfg.mister_auto_schedule[self.idx as int])
        } else {
            None
        }
    }

    /// The setpoint that is in force: the entry at the stepper's index once
    /// the stepper has left `Initial`.
    pub open spec fn active(self, cfg: ConfigModel) -> Option<MisterAutoSchedule> {
        if self.mode == AutoScheduleMode::Initial {
            None
        } else {
            self.entry(cfg)
        }
    }

    /// The milliseconds left of the run of the entry at the stepper's index
    /// at the time `now`; zero once the run time is over.
    pub open spec fn remaining(self, cfg: ConfigModel, now: u32) -> Option<u64> {
        match self.entry(cfg) {
            Some(entry) => {
                let run_ms = entry.run_secs * 1000;
                let gone = elapsed_ms(self.start_time, now);
                Some(
                    if gone >= run_ms {
                        0u64
                    } else {
                        (run_ms - gone) as u64
                    },
                )
            },
            None => None,
        }
    }

    /// The stepper waiting for the setpoint `idx`, or without setpoint where
    /// the schedule has no such entry.
    pub open spec fn started(cfg: ConfigModel, idx: usize) -> AutoScheduleState {
        if idx < cfg.mister_auto_schedule.len() {
            AutoScheduleState { mode: AutoScheduleMode::Pending, idx, start_time: 0 }
        } else {
            AutoScheduleState::initial()
        }
    }

    /// The stepper waiting for the setpoint that follows its own in the
    /// cycle.
    pub open spec fn advanced(self, cfg: ConfigModel) -> AutoScheduleState {
        AutoScheduleState::started(
            cfg,
            next_idx(cfg.mister_auto_schedule.len(), self.idx as nat) as usize,
        )
    }

    /// The stepper after it has looked at the last reading at the time
    /// `now`.
    ///
    /// Without an entry at its index the stepper is cancelled; without a
    /// reading it stays as it is. While `Pending`, a humidity inside the band
    /// of the setpoint starts the run. While `Running`, a run time that is
    /// over takes the stepper to the next setpoint.
    pub open spec fn checked(self, cfg: ConfigModel, metrics: Option<SensorMetrics>, now: u32) -> AutoScheduleState {
        match (self.entry(cfg), metrics) {
            (None, _) => AutoScheduleState::initial(),
            (Some(_), None) => self,
            (Some(entry), Some(reading)) => match self.mode {
                AutoScheduleMode::Initial => self,
                AutoScheduleMode::Pending => if in_band(cfg, entry.rh, reading.rh) {
                    AutoScheduleState {
                        mode: AutoScheduleMode::Running,
                        idx: self.idx,
                        start_time: now,
                    }
                } else {
                    self
                },
                AutoScheduleMode::Running => if elapsed_ms(self.start_time, now) >= entry.run_secs
                    * 1000 {
                    self.advanced(cfg)
                } else {
                    self
                },
            },
        }
    }

    /// The stepper after one poll at the time `now`, with what the poll
    /// hands back, or nothing where it ends in a fault.
    ///
    /// Outside Auto a stepper with a setpoint is cancelled. In Auto a stepper
    /// without setpoint starts to wait for the first one. Then a waiting
    /// stepper sleeps for the fixed interval and a running one until its run
    /// time is over; a running one that has no time left looks at the last
    /// reading at once.
    pub open spec fn polled(
        self,
        cfg: ConfigModel,
        mode_auto: bool,
        metrics: Option<SensorMetrics>,
        now: u32,
    ) -> (AutoScheduleState, Option<SchedulePoll>) {
        if !mode_auto {
            if self.mode == AutoScheduleMode::Initial {
                (self, Some(SchedulePoll::Idle))
            } else {
                (AutoScheduleState::initial(), Some(SchedulePoll::Idle))
            }
        } else {
            let state = if self.mode == AutoScheduleMode::Initial {
                AutoScheduleState::started(cfg, 0)
            } else {
                self
            };
            match state.remaining(cfg, now) {
                None => (AutoScheduleState::initial(), None),
                Some(remaining) => match state.mode {
                    AutoScheduleMode::Initial => (AutoScheduleState::initial(), None),
                    AutoScheduleMode::Pending => (
                        state,
                        Some(SchedulePoll::Sleep { ms: AUTO_SCHEDULE_PENDING_SLEEP_MS as u64 }),
                    ),
                    AutoScheduleMode::Running => if state.start_time == 0 {
                        (AutoScheduleState::initial(), None)
                    } else if remaining > 0 {
                        (state, Some(SchedulePoll::Sleep { ms: remaining }))
                    } else if metrics is None {
                        (state, None)
                    } else {
                        (state.checked(cfg, metrics, now), Some(SchedulePoll::Checked))
                    },
                },
            }
        }
    }

    /// The stepper after it woke up from its sleep at the time `now`.
    ///
    /// A message that the mode has changed cancels the stepper; the notice
    /// that the subscriber fell behind changes nothing; the end of the sleep
    /// makes the stepper look at the last reading.
    pub open spec fn woken(
        self,
        cfg: ConfigModel,
        wake: ScheduleWake,
        metrics: Option<SensorMetrics>,
        now: u32,
    ) -> AutoScheduleState {
        match wake {
            ScheduleWake::ModeChanged(Delivery::Lagged(_)) => self,
            ScheduleWake::ModeChanged(Delivery::Message(_)) => AutoScheduleState::initial(),
            ScheduleWake::Timer => self.checked(cfg, metrics, now),
        }
    }

    /// A stepper in the given state.
    pub fn new(mode: AutoScheduleMode, idx: usize, start_time: u32) -> (r: AutoScheduleState)
        ensures
            r == (AutoScheduleState { mode, idx, start_time }),
    {
        AutoScheduleState { mode, idx, start_time }
    }

    /// Cancels the stepper: no setpoint, index zero, no start time.
    pub fn reset(&mut self)
        ensures
            *final(self) == AutoScheduleState::initial(),
    {
        self.mode = AutoScheduleMode::Initial;
        self.idx = 0;
        self.start_time = 0;
    }

    /// The milliseconds since the run began, at the time `now`.
    pub fn running_ms(&self, now: u32) -> (r: u32)
        ensures
            r == elapsed_ms(self.start_time, now),
    {
        elapsed(self.start_time, now)
    }

    /// The milliseconds left of the run of the entry at the stepper's index
    /// at the time `now`, or nothing if the schedule has no such entry.
    pub fn remaining_ms(&self, cfg: &ConfigInstance, now: u32) -> (r: Option<u64>)
        ensures
            r == self.remaining(cfg@, now),
    {
        match self.get_auto_schedule(cfg) {
            Some(entry) => {
                let run_ms: u64 = entry.run_secs as u64 * 1000;
                let gone: u64 = self.running_ms(now) as u64;
                if gone >= run_ms {
                    Some(0)
                } else {
                    Some(run_ms - gone)
                }
            },
            None => None,
        }
    }

    /// The schedule entry at the stepper's index, if there is one.
    pub fn get_auto_schedule(&self, cfg: &ConfigInstance) -> (r: Option<MisterAutoSchedule>)
        ensures
            r == self.entry(cfg@),
    {
        if self.idx < cfg.mister_auto_schedule.len() {
            Some(cfg.mister_auto_schedule[self.idx])
        } else {
            None
        }
    }

    /// The setpoint that is in force, if the stepper has one.
    pub fn active_setpoint(&self, cfg: &ConfigInstance) -> (r: Option<MisterAutoSchedule>)
        ensures
            r == self.active(cfg@),
    {
        match self.mode {
            AutoScheduleMode::Initial => None,
            _ => self.get_auto_schedule(cfg),
        }
    }
}

impl Default for AutoScheduleState {
    /// A stepper that has no setpoint.
    fn default() -> (r: AutoScheduleState)
        ensures
            r == AutoScheduleState::initial(),
    {
        AutoScheduleState::new(AutoScheduleMode::Initial, 0, 0)
    }
}

/// The schedule entry at the stepper's index. Where there is none the
/// stepper is cancelled and a general fault handed back.
pub fn get_auto_schedule(cfg: &ConfigInstance, active: &mut AutoScheduleState) -> (r: Result<
    MisterAutoSchedule,
>)
    ensures
        r matches Ok(entry) ==> old(active).entry(cfg@) == Some(entry) && *final(active) == *old(
            active,
        ),
        r matches Err(e) ==> old(active).entry(cfg@) is None && *final(active)
            == AutoScheduleState::initial() && e is GeneralFault,
{
    match active.get_auto_schedule(cfg) {
        Some(entry) => Ok(entry),
        None => {
            active.reset();
            Err(general_fault(String::from_str("no mister auto schedule found for idx")))
        },
    }
}

/// Makes the stepper wait for the setpoint `idx`. Where the schedule has no
/// such entry the stepper is cancelled and a general fault handed back.
pub fn mister_auto_schedule_start(cfg: &ConfigInstance, active: &mut AutoScheduleState, idx: usize) -> (r:
    Result<()>)
    ensures
        *final(active) == AutoScheduleState::started(cfg@, idx),
        r is Ok <==> idx < cfg@.mister_auto_schedule.len(),
        r matches Err(e) ==> e is GeneralFault,
        final(active).wf(cfg@),
{
    active.reset();
    active.idx = idx;
    match get_auto_schedule(cfg, active) {
        Ok(_) => {
            active.mode = AutoScheduleMode::Pending;
            Ok(())
        },
        Err(e) => Err(e),
    }
}

/// Takes the stepper to the setpoint that follows its own, and from the
/// last one back to the first.
pub fn mister_auto_schedule_next(cfg: &ConfigInstance, active: &mut AutoScheduleState) -> (r: Result<()>)
    ensures
        *final(active) == old(active).advanced(cfg@),
        r is Ok <==> cfg@.mister_auto_schedule.len() > 0,
        r matches Err(e) ==> e is GeneralFault,
        final(active).wf(cfg@),
{
    let cur_idx = active.idx;
    let len = cfg.mister_auto_schedule.len();
    if len >= 2 && cur_idx <= len - 2 {
        mister_auto_schedule_start(cfg, active, cur_idx + 1)
    } else {
        mister_auto_schedule_start(cfg, active, 0)
    }
}

/// Makes the stepper look at the last reading `metrics` at the time `now`.
///
/// Fails with a general fault if the schedule has no entry at the stepper's
/// index, which cancels the stepper, or if there is no reading, which leaves
/// the stepper as it is.
pub fn mister_auto_schedule_check(
    cfg: &ConfigInstance,
    active: &mut AutoScheduleState,
    metrics: Option<SensorMetrics>,
    now: u32,
) -> (r: Result<()>)
    requires
        old(active).mode != AutoScheduleMode::Initial,
    ensures
        *final(active) == old(active).checked(cfg@, metrics, now),
        r is Err <==> old(active).entry(cfg@) is None || metrics is None,
        r matches Err(e) ==> e is GeneralFault,
        old(active).wf(cfg@) ==> final(active).wf(cfg@),
{
    let entry = match get_auto_schedule(cfg, active) {
        Ok(entry) => entry,
        Err(e) => { return Err(e); },
    };
    match metrics {
        Some(metrics) => match active.mode {
            AutoScheduleMode::Pending => {
                let rh_on = cfg.mister_auto_on_rh(entry.rh);
                let rh_off = entry.rh;
                if metrics.rh as i64 >= rh_on && metrics.rh <= rh_off {
                    active.start_time = now;
                    active.mode = AutoScheduleMode::Running;
                }
                Ok(())
            },
            AutoScheduleMode::Running => {
                if active.running_ms(now) as u64 >= entry.run_secs as u64 * 1000 {
                    mister_auto_schedule_next(cfg, active)
                } else {
                    Ok(())
                }
            },
            AutoScheduleMode::Initial => Ok(()),
        },
        None => Err(
            general_fault(String::from_str("failed to check auto schedule - no sensor metrics")),
        ),
    }
}

/// Polls the stepper once at the time `now`.
///
/// `mode_auto` says whether the mode in force is Auto and `metrics` is the
/// last reading. Fails with a general fault where the schedule has no entry
/// for the stepper, where a running stepper has no start time, both of
/// which cancel the stepper, and where a running stepper with no time left
/// finds no reading.
pub fn mister_auto_schedule_task_poll(
    cfg: &ConfigInstance,
    active: &mut AutoScheduleState,
    mode_auto: bool,
    metrics: Option<SensorMetrics>,
    now: u32,
) -> (r: Result<SchedulePoll>)
    ensures
        *final(active) == old(active).polled(cfg@, mode_auto, metrics, now).0,
        match r {
            Ok(poll) => old(active).polled(cfg@, mode_auto, metrics, now).1 == Some(poll),
            Err(e) => old(active).polled(cfg@, mode_auto, metrics, now).1 is None
                && e is GeneralFault,
        },
        old(active).wf(cfg@) ==> final(active).wf(cfg@),
{
    if let AutoScheduleMode::Initial = active.mode {
        if !mode_auto {
            return Ok(SchedulePoll::Idle);
        }
        match mister_auto_schedule_start(cfg, active, 0) {
            Ok(()) => {},
            Err(e) => { return Err(e); },
        }
    } else if !mode_auto {
        active.reset();
        return Ok(SchedulePoll::Idle);
    }
    let entry = match get_auto_schedule(cfg, active) {
        Ok(entry) => entry,
        Err(e) => { return Err(e); },
    };
    let sleep_ms: u64 = match active.mode {
        AutoScheduleMode::Pending => AUTO_SCHEDULE_PENDING_SLEEP_MS as u64,
        _ => {
            if active.start_time > 0 {
                let run_ms: u64 = entry.run_secs as u64 * 1000;
                let gone: u64 = active.running_ms(now) as u64;
                if gone >= run_ms {
                    0
                } else {
                    run_ms - gone
                }
            } else {
                active.reset();
                return Err(
                    general_fault(String::from_str("auto schedule running with no start time")),
                );
            }
        },
    };
    if sleep_ms == 0 {
        return match mister_auto_schedule_check(cfg, active, metrics, now) {
            Ok(()) => Ok(SchedulePoll::Checked),
            Err(e) => Err(e),
        };
    }
    Ok(SchedulePoll::Sleep { ms: sleep_ms })
}

/// Wakes the stepper after the sleep that a poll asked for.
pub fn mister_auto_schedule_wake(
    cfg: &ConfigInstance,
    active: &mut AutoScheduleState,
    wake: ScheduleWake,
    metrics: Option<SensorMetrics>,
    now: u32,
) -> (r: Result<()>)
    requires
        wake is Timer ==> old(active).mode != AutoScheduleMode::Initial,
    ensures
        *final(active) == old(active).woken(cfg@, wake, metrics, now),
        r is Err <==> wake is Timer && (old(active).entry(cfg@) is None || metrics is None),
        r matches Err(e) ==> e is GeneralFault,
        old(active).wf(cfg@) ==> final(active).wf(cfg@),
{
    match wake {
        ScheduleWake::ModeChanged(Delivery::Lagged(_)) => Ok(()),
        ScheduleWake::ModeChanged(Delivery::Message(_)) => {
            active.reset();
            Ok(())
        },
        ScheduleWake::Timer => mister_auto_schedule_check(cfg, active, metrics, now),
    }
}

/// The stepper after `n` runs have ended, counted from its start at the
/// first setpoint.
pub open spec fn after_runs(cfg: ConfigModel, n: nat) -> AutoScheduleState
    decreases n,
{
    if n == 0 {
        AutoScheduleState::started(cfg, 0)
    } else {
        after_runs(cfg, (n - 1) as nat).advanced(cfg)
    }
}

/// The stepper visits the setpoints in the order of the schedule and goes
/// from the last one back to the first: after `n` runs it waits for the
/// setpoint `n` modulo the length of the schedule.
pub proof fn lemma_visits_in_order(cfg: ConfigModel, n: nat)
    requires
        0 < cfg.mister_auto_schedule.len() <= usize::MAX,
    ensures
        after_runs(cfg, n) == (AutoScheduleState {
            mode: AutoScheduleMode::Pending,
            idx: (n % cfg.mister_auto_schedule.len()) as usize,
            start_time: 0,
        }),
    decreases n,
{
    let len = cfg.mister_auto_schedule.len();
    if n == 0 {
        assert(0nat % len == 0) by (nonlinear_arith)
            requires
                len > 0,
        ;
    } else {
        lemma_visits_in_order(cfg, (n - 1) as nat);
        let p = (n - 1) as nat;
        assert(p % len < len && next_idx(len, p % len) == (p + 1) % len) by (nonlinear_arith)
            requires
                len > 0,
                next_idx(len, p % len) == if p % len + 1 < len {
                    p % len + 1
                } else {
                    0
                },
        ;
    }
}

/// When a run ends, the stepper waits for the setpoint that follows its own
/// in the schedule, and for the first one after the last.
pub proof fn lemma_advance(cfg: ConfigModel, state: AutoScheduleState)
    requires
        state.idx < cfg.mister_auto_schedule.len(),
    ensures
        state.advanced(cfg) == (AutoScheduleState {
            mode: AutoScheduleMode::Pending,
            idx: if state.idx + 1 == cfg.mister_auto_schedule.len() {
                0
            } else {
                (state.idx + 1) as usize
            },
            start_time: 0,
        }),
        state.advanced(cfg).wf(cfg),
{
}

/// A running stepper whose run time is over goes on to the next setpoint as
/// soon as it looks at a reading; one whose run time is not over stays.
pub proof fn lemma_run_ends(
    cfg: ConfigModel,
    state: AutoScheduleState,
    reading: SensorMetrics,
    now: u32,
)
    requires
        state.mode == AutoScheduleMode::Running,
        state.idx < cfg.mister_auto_schedule.len(),
    ensures
        state.checked(cfg, Some(reading), now) == if elapsed_ms(state.start_time, now)
            >= cfg.mister_auto_schedule[state.idx as int].run_secs * 1000 {
            state.advanced(cfg)
        } else {
            state
        },
{
}

/// Leaving Auto cancels the stepper wherever it stands, and so does a
/// message that the mode has changed. Entering Auto again makes it wait for
/// the first setpoint, whatever it did before.
pub proof fn lemma_leave_and_enter(
    cfg: ConfigModel,
    state: AutoScheduleState,
    change: Mode,
    metrics: Option<SensorMetrics>,
    left_at: u32,
    entered_at: u32,
)
    requires
        cfg.mister_auto_schedule.len() > 0,
    ensures
        ({
            let left = state.polled(cfg, false, metrics, left_at).0;
            let entered = left.polled(cfg, true, metrics, entered_at);
            &&& left.mode == AutoScheduleMode::Initial
            &&& entered.0 == (AutoScheduleState {
                mode: AutoScheduleMode::Pending,
                idx: 0,
                start_time: 0,
            })
            &&& entered.1 == Some(SchedulePoll::Sleep { ms: AUTO_SCHEDULE_PENDING_SLEEP_MS as u64 })
        }),
        ({
            let left = state.woken(
                cfg,
                ScheduleWake::ModeChanged(Delivery::Message(change)),
                metrics,
                left_at,
            );
            let entered = left.polled(cfg, true, metrics, entered_at);
            &&& left == AutoScheduleState::initial()
            &&& entered.0 == (AutoScheduleState {
                mode: AutoScheduleMode::Pending,
                idx: 0,
                start_time: 0,
            })
        }),
{
}

/// A waiting stepper starts its run on the first look at a reading whose
/// humidity lies in the band of the setpoint, and not before.
pub proof fn lemma_pending_until_in_band(
    cfg: ConfigModel,
    state: AutoScheduleState,
    reading: SensorMetrics,
    now: u32,
)
    requires
        state.mode == AutoScheduleMode::Pending,
        state.idx < cfg.mister_auto_schedule.len(),
    ensures
        ({
            let target = cfg.mister_auto_schedule[state.idx as int].rh;
            state.checked(cfg, Some(reading), now) == if in_band(cfg, target, reading.rh) {
                AutoScheduleState {
                    mode: AutoScheduleMode::Running,
                    idx: state.idx,
                    start_time: now,
                }
            } else {
                state
            }
        }),
{
}

} // verus!
