//! The mister control engine: it takes mode changes and sensor readings and
//! decides whether the mister runs.
//!
//! The engine owns the active mode, the published status, the level of the
//! mister's power output and the anti-flap state. Each function changes that
//! state and says in its `Effects` what has to be done on the device: drive
//! the output, publish a status, publish a mode.

use vstd::prelude::*;
use vstd::string::*;
use crate::config::{ConfigInstance, ConfigModel};
use crate::error::{general_fault, Result};
use crate::event::Delivery;
use crate::mode::{ChangeMode, Mode, Status};
use crate::schedule::AutoScheduleState;
use crate::sensor::SensorMetrics;
use crate::storage::NvStorage;
use crate::time::{elapsed, elapsed_ms};

verus! {

/// The storage address of the mode record, which is one byte.
pub const MODE_FLASH_ADDR: u32 = 0x9000;

/// The anti-flap state: the status of the last accepted change and the time
/// of that change.
#[derive(Copy, Clone, PartialEq, Eq, Debug, Structural)]
pub struct AutoRhState {
    pub status: Status,
    pub cycle_start_time: u32,
}

impl AutoRhState {
    /// The record of a change to `status` that was accepted at the time
    /// `cycle_start_time`.
    pub fn new(status: Status, cycle_start_time: u32) -> (r: AutoRhState)
        ensures
            r == (AutoRhState { status, cycle_start_time }),
    {
        AutoRhState { status, cycle_start_time }
    }
}

/// The state of the engine.
#[derive(Copy, Clone, PartialEq, Eq, Debug)]
pub struct Mister {
    /// The mode in force; none before the stored mode was loaded.
    pub active_mode: Option<Mode>,
    /// The status that was published last.
    pub status: Option<Status>,
    /// Whether the mister's power output is driven high.
    pub pin_high: bool,
    /// The anti-flap state, while there is an accepted change to measure from.
    pub auto_state: Option<AutoRhState>,
}

/// What the caller has to carry out after the engine has taken an event.
#[derive(Copy, Clone, PartialEq, Eq, Debug)]
pub struct Effects {
    /// Drive the mister's power output to this level: high where `true`.
    pub pin: Option<bool>,
    /// Publish this status to the subscribers of status changes.
    pub status_changed: Option<Status>,
    /// Publish this mode to the subscribers of mode changes.
    pub mode_changed: Option<Mode>,
}

/// An event that the engine takes.
#[derive(Copy, Clone, PartialEq, Eq, Debug)]
pub enum MisterEvent {
    /// From the channel of mode change requests.
    ChangeMode(Delivery<ChangeMode>),
    /// From the channel of sensor readings; an absent reading is a fault of
    /// the sensor.
    Sensor(Delivery<Option<SensorMetrics>>),
}

/// The status that a mode forces when it is chosen. Auto starts switched off,
/// until the readings say otherwise.
pub open spec fn status_for_mode(mode: Mode) -> Status {
    match mode {
        Mode::On => Status::On,
        Mode::Off => Status::Off,
        Mode::Auto => Status::Off,
    }
}

/// The mode that follows the active one when no mode is asked for by name.
pub open spec fn toggled(active: Option<Mode>) -> Mode {
    match active {
        None => Mode::Auto,
        Some(mode) => mode.next(),
    }
}

/// The mode that a request asks for.
pub open spec fn requested_mode(change: ChangeMode, active: Option<Mode>) -> Mode {
    match change.mode {
        Some(mode) => mode,
        None => toggled(active),
    }
}

/// The mode that the record byte stands for: bytes 1, 2, 3 are Auto, Off,
/// On, and any other byte, that of erased storage too, is taken as absent.
pub open spec fn stored_mode(byte: u8) -> Option<Mode> {
    if 1 <= byte <= 3 {
        Some(Mode::of_code(byte))
    } else {
        None
    }
}

/// The status that a humidity reading asks for against a target: on at or
/// below the switch-on humidity, off at or above the target, and between the
/// two the status published before, or off where none was.
pub open spec fn candidate_status(
    cfg: ConfigModel,
    target_rh: i32,
    rh: i32,
    previous: Option<Status>,
) -> Status {
    if rh <= cfg.mister_auto_on_rh(target_rh) {
        Status::On
    } else if rh >= target_rh {
        Status::Off
    } else {
        match previous {
            Some(status) => status,
            None => Status::Off,
        }
    }
}

impl Mister {
    /// The engine at power-up: no mode yet, status off, output low.
    pub open spec fn initial() -> Mister {
        Mister { active_mode: None, status: Some(Status::Off), pin_high: false, auto_state: None }
    }

    /// The output is high exactly while the published status is on. In
    /// particular it is low on a fault.
    pub open spec fn wf(self) -> bool {
        self.pin_high <==> self.status == Some(Status::On)
    }

    /// The engine with `status` published and the output driven to match.
    pub open spec fn with_status(self, status: Status) -> Mister {
        Mister { status: Some(status), pin_high: status == Status::On, ..self }
    }

    /// The anti-flap state that is left after it was held against the
    /// published status: it is dropped where it records another status.
    pub open spec fn synced_auto_state(self) -> Option<AutoRhState> {
        match (self.auto_state, self.status) {
            (Some(cur), Some(status)) => if cur.status == status {
                Some(cur)
            } else {
                None
            },
            (auto_state, _) => auto_state,
        }
    }

    /// Whether a change of status is let through at the time `now`: there
    /// is no accepted change to measure from, or more than the minimum cycle
    /// duration has passed since the last one.
    pub open spec fn change_allowed(self, cfg: ConfigModel, now: u32) -> bool {
        match self.synced_auto_state() {
            None => true,
            Some(cur) => elapsed_ms(cur.cycle_start_time, now) > cfg.mister_auto_duration_min_ms,
        }
    }

    /// The engine after a sensor message was taken in Auto against the
    /// target `target_rh` at the time `now`.
    ///
    /// An absent reading forces a fault and drops the anti-flap state. A
    /// reading gives a candidate status. A candidate that is the published
    /// status changes nothing; one that differs is published, and recorded
    /// with its time as the last accepted change, if a change is allowed
    /// now, and is otherwise ignored.
    pub open spec fn auto_rh_poll(
        self,
        cfg: ConfigModel,
        target_rh: i32,
        metrics: Option<SensorMetrics>,
        now: u32,
    ) -> Mister {
        match metrics {
            None => Mister { auto_state: None, ..self }.with_status(Status::Fault),
            Some(reading) => {
                let candidate = candidate_status(cfg, target_rh, reading.rh, self.status);
                match self.status {
                    None => Mister { auto_state: None, ..self }.with_status(candidate),
                    Some(status) => if candidate == status {
                        Mister { auto_state: self.synced_auto_state(), ..self }.with_status(
                            candidate,
                        )
                    } else if self.change_allowed(cfg, now) {
                        Mister {
                            auto_state: Some(
                                AutoRhState { status: candidate, cycle_start_time: now },
                            ),
                            ..self
                        }.with_status(candidate)
                    } else {
                        Mister { auto_state: self.synced_auto_state(), ..self }
                    },
                }
            },
        }
    }

    /// The engine after it has taken `event` at the time `now`.
    ///
    /// `stored` says whether the mode record could be written and
    /// `active_auto` is the state of the schedule stepper. A request to
    /// change the mode makes the requested mode the active one and forces
    /// its status, unless the record could not be written. A sensor message
    /// counts only while the mode is Auto: it is held against the target of
    /// the active setpoint, and forces a fault where no setpoint is active.
    /// The notice that the subscriber fell behind changes nothing.
    pub open spec fn operation_poll(
        self,
        cfg: ConfigModel,
        stored: bool,
        active_auto: AutoScheduleState,
        event: MisterEvent,
        now: u32,
    ) -> Mister {
        match event {
            MisterEvent::ChangeMode(Delivery::Message(change)) => if stored {
                let mode = requested_mode(change, self.active_mode);
                Mister { active_mode: Some(mode), ..self }.with_status(status_for_mode(mode))
            } else {
                self
            },
            MisterEvent::Sensor(Delivery::Message(metrics)) => if self.active_mode == Some(
                Mode::Auto,
            ) {
                match active_auto.active(cfg) {
                    Some(setpoint) => self.auto_rh_poll(cfg, setpoint.rh, metrics, now),
                    None => Mister { auto_state: None, ..self }.with_status(Status::Fault),
                }
            } else {
                self
            },
            _ => self,
        }
    }

    /// The engine at power-up: no mode yet, status off, output low.
    pub fn new() -> (r: Mister)
        ensures
            r == Mister::initial(),
            r.wf(),
    {
        Mister { active_mode: None, status: Some(Status::Off), pin_high: false, auto_state: None }
    }
}

impl Effects {
    /// Nothing to carry out.
    pub open spec fn none() -> Effects {
        Effects { pin: None, status_changed: None, mode_changed: None }
    }

    /// What has to be carried out on the device when the engine has gone
    /// from `before` to `after`: the output is driven only where its level
    /// has changed, the status published only where it differs from the one
    /// published last.
    pub open spec fn between(before: Mister, after: Mister, mode_changed: Option<Mode>) -> Effects {
        Effects {
            pin: if before.pin_high != after.pin_high {
                Some(after.pin_high)
            } else {
                None
            },
            status_changed: if before.status != after.status {
                after.status
            } else {
                None
            },
            mode_changed,
        }
    }
}

/// Whether the mode in force is Auto.
pub fn is_mode_auto(active_mode: &Option<Mode>) -> (r: bool)
    ensures
        r == (*active_mode == Some(Mode::Auto)),
{
    match active_mode {
        Some(Mode::Auto) => true,
        _ => false,
    }
}

/// Publishes `status` and drives the output to match: high for on, low for
/// off and for a fault. The output is driven only where its level differs
/// and the status published only where it differs from the one published
/// last.
pub fn change_status(mister: &mut Mister, status: Status) -> (fx: Effects)
    ensures
        *final(mister) == old(mister).with_status(status),
        fx == Effects::between(*old(mister), *final(mister), None),
        final(mister).wf(),
{
    let mut pin: Option<bool> = None;
    match status {
        Status::On => {
            if !mister.pin_high {
                mister.pin_high = true;
                pin = Some(true);
            }
        },
        Status::Off | Status::Fault => {
            if mister.pin_high {
                mister.pin_high = false;
                pin = Some(false);
            }
        },
    }
    let differs = match mister.status {
        None => true,
        Some(v) => v != status,
    };
    let mut status_changed: Option<Status> = None;
    if differs {
        mister.status = Some(status);
        status_changed = Some(status);
    }
    Effects { pin, status_changed, mode_changed: None }
}

/// Forces the status that goes with a mode that was just chosen.
pub fn change_status_from_mode(mister: &mut Mister, mode: Mode) -> (fx: Effects)
    ensures
        *final(mister) == old(mister).with_status(status_for_mode(mode)),
        fx == Effects::between(*old(mister), *final(mister), None),
        final(mister).wf(),
{
    match mode {
        Mode::On => change_status(mister, Status::On),
        Mode::Off => change_status(mister, Status::Off),
        Mode::Auto => change_status(mister, Status::Off),
    }
}

/// Writes the mode to its record and makes it the active mode. Fails, with
/// nothing changed, if and only if the record lies outside the storage
/// window. After success the mode is to be published.
pub fn store_mode(storage: &mut NvStorage, mister: &mut Mister, mode: Mode) -> (r: Result<()>)
    ensures
        final(storage).base() == old(storage).base(),
        final(storage)@.len() == old(storage)@.len(),
        r is Ok <==> old(storage).covers(MODE_FLASH_ADDR, 1),
        r is Ok ==> {
            &&& final(storage)@ == old(storage).written(MODE_FLASH_ADDR, seq![mode.code()])
            &&& *final(mister) == (Mister { active_mode: Some(mode), ..*old(mister) })
        },
        r matches Err(e) ==> {
            &&& e is GeneralFault
            &&& final(storage)@ == old(storage)@
            &&& *final(mister) == *old(mister)
        },
{
    let mut bytes: Vec<u8> = Vec::new();
    bytes.push(mode.as_u8());
    assert(bytes@ =~= seq![mode.code()]);
    match storage.write(MODE_FLASH_ADDR, bytes.as_slice()) {
        Ok(()) => {
            mister.active_mode = Some(mode);
            Ok(())
        },
        Err(_) => Err(
            general_fault(String::from_str("Failed to persist active mode to flash storage")),
        ),
    }
}

/// Goes on to the mode that follows the active one in the cycle Auto, Off,
/// On, or to Auto where no mode is active, and stores it.
pub fn toggle_mode(storage: &mut NvStorage, mister: &mut Mister) -> (r: Result<Mode>)
    ensures
        final(storage).base() == old(storage).base(),
        final(storage)@.len() == old(storage)@.len(),
        r is Ok <==> old(storage).covers(MODE_FLASH_ADDR, 1),
        r matches Ok(mode) ==> {
            &&& mode == toggled(old(mister).active_mode)
            &&& final(storage)@ == old(storage).written(MODE_FLASH_ADDR, seq![mode.code()])
            &&& *final(mister) == (Mister { active_mode: Some(mode), ..*old(mister) })
        },
        r matches Err(e) ==> {
            &&& e is GeneralFault
            &&& final(storage)@ == old(storage)@
            &&& *final(mister) == *old(mister)
        },
{
    let next_mode = match mister.active_mode {
        None => Mode::Auto,
        Some(mode) => {
            let mode_u8 = mode.as_u8();
            if mode_u8 + 1 <= Mode::max() {
                Mode::from(mode_u8 + 1)
            } else {
                Mode::Auto
            }
        },
    };
    match store_mode(storage, mister, next_mode) {
        Ok(()) => Ok(next_mode),
        Err(e) => Err(e),
    }
}

/// Reads the mode record and makes the stored mode the active one, or Auto
/// where the record holds no mode or cannot be read. The mode is to be
/// published.
pub fn load_mode(storage: &NvStorage, mister: &mut Mister) -> (mode: Mode)
    ensures
        mode == if storage.covers(MODE_FLASH_ADDR, 1) {
            match stored_mode(storage.bytes_at(MODE_FLASH_ADDR, 1)[0]) {
                Some(stored) => stored,
                None => Mode::Auto,
            }
        } else {
            Mode::Auto
        },
        *final(mister) == (Mister { active_mode: Some(mode), ..*old(mister) }),
{
    let mode = match storage.read(MODE_FLASH_ADDR, 1) {
        Ok(bytes) => {
            let mode_u8 = bytes[0];
            if mode_u8 >= Mode::min() && mode_u8 <= Mode::max() {
                Mode::from(mode_u8)
            } else {
                Mode::Auto
            }
        },
        Err(_) => Mode::Auto,
    };
    mister.active_mode = Some(mode);
    mode
}

/// Takes one sensor message in Auto, against the target of the active
/// setpoint.
pub fn mister_auto_rh_poll(
    cfg: &ConfigInstance,
    mister: &mut Mister,
    target_rh: i32,
    metrics: Option<SensorMetrics>,
    now: u32,
) -> (fx: Effects)
    ensures
        *final(mister) == old(mister).auto_rh_poll(cfg@, target_rh, metrics, now),
        fx == Effects::between(*old(mister), *final(mister), None),
        old(mister).wf() ==> final(mister).wf(),
{
    match metrics {
        Some(metrics) => {
            let status = mister.status;
            let rh_on = cfg.mister_auto_on_rh(target_rh);
            let rh_off = target_rh;

            // An anti-flap state that records another status than the
            // published one is out of date.
            if let Some(cur) = mister.auto_state {
                if let Some(status) = status {
                    if cur.status != status {
                        mister.auto_state = None;
                    }
                }
            }
            let new_status = if metrics.rh as i64 <= rh_on {
                Status::On
            } else if metrics.rh >= rh_off {
                Status::Off
            } else {
                match status {
                    Some(status) => status,
                    None => Status::Off,
                }
            };

            if let Some(status) = status {
                if new_status != status {
                    match mister.auto_state {
                        Some(cur) => {
                            if elapsed(cur.cycle_start_time, now)
                                > cfg.mister_auto_duration_min_ms {
                                mister.auto_state = Some(AutoRhState::new(new_status, now));
                                change_status(mister, new_status)
                            } else {
                                Effects { pin: None, status_changed: None, mode_changed: None }
                            }
                        },
                        None => {
                            mister.auto_state = Some(AutoRhState::new(new_status, now));
                            change_status(mister, new_status)
                        },
                    }
                } else {
                    change_status(mister, new_status)
                }
            } else {
                mister.auto_state = None;
                change_status(mister, new_status)
            }
        },
        None => {
            mister.auto_state = None;
            change_status(mister, Status::Fault)
        },
    }
}

/// Whether taking `event` ends in a fault: the mode record cannot be
/// written, or a sensor message arrives in Auto while no setpoint is active.
pub open spec fn operation_poll_fails(
    mister: Mister,
    cfg: ConfigModel,
    stored: bool,
    active_auto: AutoScheduleState,
    event: MisterEvent,
) -> bool {
    match event {
        MisterEvent::ChangeMode(Delivery::Message(_)) => !stored,
        MisterEvent::Sensor(Delivery::Message(_)) => mister.active_mode == Some(Mode::Auto)
            && active_auto.active(cfg) is None,
        _ => false,
    }
}

/// Takes one event of the engine: a request to change the mode or a message
/// of the sensor.
///
/// A requested mode, or the next mode where none is named, is written to
/// the mode record before anything else; if that fails the fault is handed
/// back and nothing has changed. Then the mode is active, is to be
/// published, and its status is forced. A sensor message is looked at only
/// in Auto. With an active setpoint it goes through the hysteresis and the
/// anti-flap guard; without one the status is forced to fault, the
/// anti-flap state is dropped, and a general fault is handed back beside
/// the effects.
pub fn mister_operation_task_poll(
    cfg: &ConfigInstance,
    storage: &mut NvStorage,
    mister: &mut Mister,
    active_auto: &AutoScheduleState,
    event: MisterEvent,
    now: u32,
) -> (r: (Effects, Result<()>))
    ensures
        final(storage).base() == old(storage).base(),
        final(storage)@.len() == old(storage)@.len(),
        *final(mister) == old(mister).operation_poll(
            cfg@,
            old(storage).covers(MODE_FLASH_ADDR, 1),
            *active_auto,
            event,
            now,
        ),
        r.1 is Err <==> operation_poll_fails(
            *old(mister),
            cfg@,
            old(storage).covers(MODE_FLASH_ADDR, 1),
            *active_auto,
            event,
        ),
        r.1 matches Err(e) ==> e is GeneralFault,
        event matches MisterEvent::ChangeMode(Delivery::Message(change)) ==> (r.1 is Ok ==> {
            let mode = requested_mode(change, old(mister).active_mode);
            &&& final(storage)@ == old(storage).written(MODE_FLASH_ADDR, seq![mode.code()])
            &&& r.0 == Effects::between(*old(mister), *final(mister), Some(mode))
        }),
        !(event matches MisterEvent::ChangeMode(Delivery::Message(_)) && r.1 is Ok) ==> {
            &&& final(storage)@ == old(storage)@
            &&& r.0 == Effects::between(*old(mister), *final(mister), None)
        },
        old(mister).wf() ==> final(mister).wf(),
{
    let nothing = Effects { pin: None, status_changed: None, mode_changed: None };
    match event {
        MisterEvent::ChangeMode(Delivery::Lagged(_)) => (nothing, Ok(())),
        MisterEvent::ChangeMode(Delivery::Message(change_mode)) => {
            let stored = match change_mode.mode {
                Some(mode) => match store_mode(storage, mister, mode) {
                    Ok(()) => Ok(mode),
                    Err(e) => Err(e),
                },
                None => toggle_mode(storage, mister),
            };
            match stored {
                Ok(mode) => {
                    let fx = change_status_from_mode(mister, mode);
                    (
                        Effects {
                            pin: fx.pin,
                            status_changed: fx.status_changed,
                            mode_changed: Some(mode),
                        },
                        Ok(()),
                    )
                },
                Err(e) => (nothing, Err(e)),
            }
        },
        MisterEvent::Sensor(delivery) => {
            if is_mode_auto(&mister.active_mode) {
                match delivery {
                    Delivery::Lagged(_) => (nothing, Ok(())),
                    Delivery::Message(metrics) => match active_auto.active_setpoint(cfg) {
                        Some(setpoint) => {
                            let fx = mister_auto_rh_poll(cfg, mister, setpoint.rh, metrics, now);
                            (fx, Ok(()))
                        },
                        None => {
                            mister.auto_state = None;
                            let fx = change_status(mister, Status::Fault);
                            (
                                fx,
                                Err(
                                    general_fault(
                                        String::from_str(
                                            "mister mode is auto without valid schedule present",
                                        ),
                                    ),
                                ),
                            )
                        },
                    },
                }
            } else {
                (nothing, Ok(()))
            }
        },
    }
}

/// One sensor reading as the engine takes it in Auto: the target of the
/// setpoint that is active, the reading and the time.
pub struct Reading {
    pub target_rh: i32,
    pub metrics: SensorMetrics,
    pub now: u32,
}

/// The engine after it has taken the first `n` of the readings `feed` in
/// Auto, one after the other, starting from `start`.
pub open spec fn after_readings(cfg: ConfigModel, start: Mister, feed: Seq<Reading>, n: nat) -> Mister
    decreases n,
{
    if n == 0 {
        start
    } else {
        let reading = feed[n - 1];
        after_readings(cfg, start, feed, (n - 1) as nat).auto_rh_poll(
            cfg,
            reading.target_rh,
            Some(reading.metrics),
            reading.now,
        )
    }
}

/// Whether the reading `i` of `feed` changed the published status.
pub open spec fn status_changed_at(cfg: ConfigModel, start: Mister, feed: Seq<Reading>, i: nat) -> bool {
    after_readings(cfg, start, feed, i).status != after_readings(cfg, start, feed, i + 1).status
}

/// One reading switches the mister from on to off only at or above the
/// target, and from off to on only at or below the switch-on humidity. A
/// reading strictly between the two leaves status and output as they are.
pub proof fn lemma_dead_band_step(
    cfg: ConfigModel,
    mister: Mister,
    target_rh: i32,
    metrics: SensorMetrics,
    now: u32,
)
    ensures
        ({
            let after = mister.auto_rh_poll(cfg, target_rh, Some(metrics), now);
            &&& mister.status == Some(Status::On) && after.status == Some(Status::Off)
                ==> metrics.rh >= target_rh
            &&& mister.status == Some(Status::Off) && after.status == Some(Status::On)
                ==> metrics.rh <= cfg.mister_auto_on_rh(target_rh)
            &&& cfg.mister_auto_on_rh(target_rh) < metrics.rh < target_rh && mister.status is Some
                && mister.wf() ==> after.status == mister.status && after.pin_high
                == mister.pin_high
        }),
{
}

/// Over any run of readings in Auto, the status goes from on to off only on
/// a reading at or above its target, and from off to on only on a reading at
/// or below its switch-on humidity.
pub proof fn lemma_dead_band(cfg: ConfigModel, start: Mister, feed: Seq<Reading>, i: nat)
    requires
        i < feed.len(),
    ensures
        ({
            let before = after_readings(cfg, start, feed, i);
            let after = after_readings(cfg, start, feed, i + 1);
            &&& before.status == Some(Status::On) && after.status == Some(Status::Off)
                ==> feed[i as int].metrics.rh >= feed[i as int].target_rh
            &&& before.status == Some(Status::Off) && after.status == Some(Status::On)
                ==> feed[i as int].metrics.rh <= cfg.mister_auto_on_rh(feed[i as int].target_rh)
        }),
{
    let r = feed[i as int];
    lemma_dead_band_step(cfg, after_readings(cfg, start, feed, i), r.target_rh, r.metrics, r.now);
}

/// A reading whose candidate status is turned down by the anti-flap guard
/// leaves the published status and the level of the output as they were, and
/// nothing is to be carried out on the device.
pub proof fn lemma_rejected_change(
    cfg: ConfigModel,
    mister: Mister,
    target_rh: i32,
    metrics: SensorMetrics,
    now: u32,
)
    requires
        mister.status matches Some(status) && candidate_status(
            cfg,
            target_rh,
            metrics.rh,
            mister.status,
        ) != status,
        !mister.change_allowed(cfg, now),
    ensures
        ({
            let after = mister.auto_rh_poll(cfg, target_rh, Some(metrics), now);
            &&& after.status == mister.status
            &&& after.pin_high == mister.pin_high
            &&& after.auto_state == mister.auto_state
            &&& Effects::between(mister, after, None) == Effects::none()
        }),
{
}

/// A reading that changes the status records the new status and its own
/// time as the last accepted change.
pub proof fn lemma_accepted_change(
    cfg: ConfigModel,
    mister: Mister,
    target_rh: i32,
    metrics: SensorMetrics,
    now: u32,
)
    requires
        mister.status is Some,
    ensures
        ({
            let after = mister.auto_rh_poll(cfg, target_rh, Some(metrics), now);
            after.status != mister.status ==> {
                &&& mister.change_allowed(cfg, now)
                &&& after.status is Some
                &&& after.auto_state == Some(
                    AutoRhState { status: after.status->0, cycle_start_time: now },
                )
            }
        }),
{
}

/// While readings change nothing, the record of the last accepted change
/// stays as it is.
proof fn lemma_quiet_readings(cfg: ConfigModel, start: Mister, feed: Seq<Reading>, i: nat, k: nat)
    requires
        start.status is Some,
        i < k <= feed.len(),
        status_changed_at(cfg, start, feed, i),
        forall|q: nat| i < q < k ==> !status_changed_at(cfg, start, feed, q),
    ensures
        ({
            let at = after_readings(cfg, start, feed, k);
            &&& at.status is Some
            &&& at.auto_state == Some(
                AutoRhState { status: at.status->0, cycle_start_time: feed[i as int].now },
            )
        }),
    decreases k,
{
    lemma_status_present(cfg, start, feed, (k - 1) as nat);
    let before = after_readings(cfg, start, feed, (k - 1) as nat);
    let r = feed[k - 1];
    if k == i + 1 {
        lemma_accepted_change(cfg, before, r.target_rh, r.metrics, r.now);
    } else {
        lemma_quiet_readings(cfg, start, feed, i, (k - 1) as nat);
        assert(!status_changed_at(cfg, start, feed, (k - 1) as nat));
    }
}

/// Readings never leave the engine without a published status.
proof fn lemma_status_present(cfg: ConfigModel, start: Mister, feed: Seq<Reading>, n: nat)
    requires
        start.status is Some,
        n <= feed.len(),
    ensures
        after_readings(cfg, start, feed, n).status is Some,
    decreases n,
{
    if n > 0 {
        lemma_status_present(cfg, start, feed, (n - 1) as nat);
    }
}

/// Over any run of readings in Auto, more than the minimum cycle duration
/// lies between one reading that changed the status and the next one that
/// did.
pub proof fn lemma_anti_flap(cfg: ConfigModel, start: Mister, feed: Seq<Reading>, i: nat, j: nat)
    requires
        start.status is Some,
        i < j < feed.len(),
        status_changed_at(cfg, start, feed, i),
        status_changed_at(cfg, start, feed, j),
        forall|q: nat| i < q < j ==> !status_changed_at(cfg, start, feed, q),
    ensures
        elapsed_ms(feed[i as int].now, feed[j as int].now) > cfg.mister_auto_duration_min_ms,
{
    lemma_quiet_readings(cfg, start, feed, i, j);
    let before = after_readings(cfg, start, feed, j);
    let r = feed[j as int];
    lemma_accepted_change(cfg, before, r.target_rh, r.metrics, r.now);
}

/// Whatever events the engine takes, the output is high exactly while the
/// published status is on: it is never left high on a fault.
pub proof fn lemma_output_follows_status(
    cfg: ConfigModel,
    mister: Mister,
    stored: bool,
    active_auto: AutoScheduleState,
    event: MisterEvent,
    now: u32,
)
    requires
        mister.wf(),
    ensures
        mister.operation_poll(cfg, stored, active_auto, event, now).wf(),
{
}

} // verus!
