//! The configuration snapshot and the overlay that updates it.
//!
//! Humidity is held in thousandths of a percent and temperature in
//! thousandths of a degree Celsius, so that every comparison is exact.

use vstd::prelude::*;
use crate::error::Result;

verus! {

/// The sensor drivers that can be chosen.
#[derive(Copy, Clone, PartialEq, Eq, Debug, Structural)]
pub enum SensorDriver {
    SHT40,
    HDC1080,
}

impl Default for SensorDriver {
    /// The driver of a device that was never configured.
    fn default() -> (r: SensorDriver)
        ensures
            r == SensorDriver::SHT40,
    {
        SensorDriver::SHT40
    }
}

/// One setpoint of the auto schedule: the humidity to reach, how long to hold
/// it once reached, and how long to wait for it at most.
#[derive(Copy, Clone, PartialEq, Eq, Debug)]
pub struct MisterAutoSchedule {
    /// Target humidity, in thousandths of a percent.
    pub rh: i32,
    pub run_secs: u32,
    pub max_wait_secs: Option<u32>,
}

impl MisterAutoSchedule {
    /// A setpoint with the given target, run time and longest wait.
    pub fn new(rh: i32, run_secs: u32, max_wait_secs: Option<u32>) -> (r: MisterAutoSchedule)
        ensures
            r == (MisterAutoSchedule { rh, run_secs, max_wait_secs }),
    {
        MisterAutoSchedule { rh, run_secs, max_wait_secs }
    }
}

/// A full configuration: every field has a value. A snapshot is replaced as
/// a whole and never changed in place while it is live.
#[derive(Clone, Debug, PartialEq, Eq)]
pub struct ConfigInstance {
    pub wifi_ssid: String,
    pub wifi_password: String,
    pub display_enabled: bool,
    pub network_enabled: bool,
    pub sensor_enabled: bool,
    pub sensor_driver: SensorDriver,
    pub sensor_delay_ms: u32,
    pub sensor_delay_err_ms: u32,
    /// Added to every humidity reading, in thousandths of a percent.
    pub sensor_calibration_rh_adj: Option<i32>,
    pub controls_min_press_ms: u32,
    pub controls_min_hold_ms: u32,
    pub mister_auto_schedule: Vec<MisterAutoSchedule>,
    /// Added to a target to get the humidity at or below which the mister
    /// switches on, in thousandths of a percent.
    pub mister_auto_on_rh_adj: Option<i32>,
    /// Kept in the configuration; the switch-off humidity is the target.
    pub mister_auto_off_rh_adj: Option<i32>,
    pub mister_auto_duration_min_ms: u32,
    pub reset_wait_secs: u32,
}

/// What a configuration holds, as mathematical values.
pub struct ConfigModel {
    pub wifi_ssid: Seq<char>,
    pub wifi_password: Seq<char>,
    pub display_enabled: bool,
    pub network_enabled: bool,
    pub sensor_enabled: bool,
    pub sensor_driver: SensorDriver,
    pub sensor_delay_ms: u32,
    pub sensor_delay_err_ms: u32,
    pub sensor_calibration_rh_adj: Option<i32>,
    pub controls_min_press_ms: u32,
    pub controls_min_hold_ms: u32,
    pub mister_auto_schedule: Seq<MisterAutoSchedule>,
    pub mister_auto_on_rh_adj: Option<i32>,
    pub mister_auto_off_rh_adj: Option<i32>,
    pub mister_auto_duration_min_ms: u32,
    pub reset_wait_secs: u32,
}

impl View for ConfigInstance {
    type V = ConfigModel;

    open spec fn view(&self) -> ConfigModel {
        ConfigModel {
            wifi_ssid: self.wifi_ssid@,
            wifi_password: self.wifi_password@,
            display_enabled: self.display_enabled,
            network_enabled: self.network_enabled,
            sensor_enabled: self.sensor_enabled,
            sensor_driver: self.sensor_driver,
            sensor_delay_ms: self.sensor_delay_ms,
            sensor_delay_err_ms: self.sensor_delay_err_ms,
            sensor_calibration_rh_adj: self.sensor_calibration_rh_adj,
            controls_min_press_ms: self.controls_min_press_ms,
            controls_min_hold_ms: self.controls_min_hold_ms,
            mister_auto_schedule: self.mister_auto_schedule@,
            mister_auto_on_rh_adj: self.mister_auto_on_rh_adj,
            mister_auto_off_rh_adj: self.mister_auto_off_rh_adj,
            mister_auto_duration_min_ms: self.mister_auto_duration_min_ms,
            reset_wait_secs: self.reset_wait_secs,
        }
    }
}

impl ConfigModel {
    /// The configuration of a device that was never configured, with empty
    /// wifi credentials.
    pub open spec fn defaults() -> ConfigModel {
        ConfigModel {
            wifi_ssid: Seq::empty(),
            wifi_password: Seq::empty(),
            display_enabled: true,
            network_enabled: true,
            sensor_enabled: true,
            sensor_driver: SensorDriver::SHT40,
            sensor_delay_ms: 500,
            sensor_delay_err_ms: 10000,
            sensor_calibration_rh_adj: Some(5000i32),
            controls_min_press_ms: 100,
            controls_min_hold_ms: 500,
            mister_auto_schedule: seq![
                MisterAutoSchedule { rh: 85000, run_secs: 120, max_wait_secs: Some(300u32) },
                MisterAutoSchedule { rh: 88000, run_secs: 180, max_wait_secs: Some(60u32) },
                MisterAutoSchedule { rh: 90000, run_secs: 240, max_wait_secs: Some(60u32) },
                MisterAutoSchedule { rh: 92000, run_secs: 240, max_wait_secs: Some(60u32) },
                MisterAutoSchedule { rh: 85000, run_secs: 120, max_wait_secs: Some(300u32) },
                MisterAutoSchedule { rh: 80000, run_secs: 300, max_wait_secs: Some(60u32) },
            ],
            mister_auto_on_rh_adj: Some(-500i32),
            mister_auto_off_rh_adj: Some(500i32),
            mister_auto_duration_min_ms: 10000,
            reset_wait_secs: 5,
        }
    }

    /// The humidity at or below which the mister switches on for a target.
    pub open spec fn mister_auto_on_rh(self, rh: i32) -> int {
        match self.mister_auto_on_rh_adj {
            Some(adj) => rh + adj,
            None => rh as int,
        }
    }

    /// The target moved by the switch-off adjustment.
    pub open spec fn mister_auto_off_rh(self, rh: i32) -> int {
        match self.mister_auto_off_rh_adj {
            Some(adj) => rh + adj,
            None => rh as int,
        }
    }
}

impl ConfigInstance {
    /// The default configuration with the two sensor delays replaced.
    pub fn new(sensor_delay_ms: u32, sensor_delay_err_ms: u32) -> (r: ConfigInstance)
        ensures
            r@ == (ConfigModel { sensor_delay_ms, sensor_delay_err_ms, ..ConfigModel::defaults() }),
    {
        let mut r = ConfigInstance::default();
        r.sensor_delay_ms = sensor_delay_ms;
        r.sensor_delay_err_ms = sensor_delay_err_ms;
        r
    }

    /// The humidity at or below which the mister switches on for a target.
    pub fn mister_auto_on_rh(&self, rh: i32) -> (r: i64)
        ensures
            r == self@.mister_auto_on_rh(rh),
    {
        match self.mister_auto_on_rh_adj {
            Some(adj) => rh as i64 + adj as i64,
            None => rh as i64,
        }
    }

    /// The target moved by the switch-off adjustment.
    pub fn mister_auto_off_rh(&self, rh: i32) -> (r: i64)
        ensures
            r == self@.mister_auto_off_rh(rh),
    {
        match self.mister_auto_off_rh_adj {
            Some(adj) => rh as i64 + adj as i64,
            None => rh as i64,
        }
    }

    /// A copy of this configuration.
    pub fn snapshot(&self) -> (r: ConfigInstance)
        ensures
            r@ == self@,
    {
        ConfigInstance {
            wifi_ssid: self.wifi_ssid.clone(),
            wifi_password: self.wifi_password.clone(),
            display_enabled: self.display_enabled,
            network_enabled: self.network_enabled,
            sensor_enabled: self.sensor_enabled,
            sensor_driver: self.sensor_driver,
            sensor_delay_ms: self.sensor_delay_ms,
            sensor_delay_err_ms: self.sensor_delay_err_ms,
            sensor_calibration_rh_adj: self.sensor_calibration_rh_adj,
            controls_min_press_ms: self.controls_min_press_ms,
            controls_min_hold_ms: self.controls_min_hold_ms,
            mister_auto_schedule: copy_schedule(&self.mister_auto_schedule),
            mister_auto_on_rh_adj: self.mister_auto_on_rh_adj,
            mister_auto_off_rh_adj: self.mister_auto_off_rh_adj,
            mister_auto_duration_min_ms: self.mister_auto_duration_min_ms,
            reset_wait_secs: self.reset_wait_secs,
        }
    }
}

/// A copy of a schedule, entry by entry.
fn copy_schedule(schedule: &Vec<MisterAutoSchedule>) -> (r: Vec<MisterAutoSchedule>)
    ensures
        r@ == schedule@,
{
    let mut out: Vec<MisterAutoSchedule> = Vec::new();
    let mut i: usize = 0;
    while i < schedule.len()
        invariant
            i <= schedule.len(),
            out@ == schedule@.subrange(0, i as int),
        decreases schedule.len() - i,
    {
        out.push(schedule[i]);
        i += 1;
        assert(out@ =~= schedule@.subrange(0, i as int));
    }
    assert(schedule@.subrange(0, i as int) =~= schedule@);
    out
}

impl Default for ConfigInstance {
    /// The configuration of a device that was never configured, with empty
    /// wifi credentials.
    fn default() -> (r: ConfigInstance)
        ensures
            r@ == ConfigModel::defaults(),
    {
        let mut schedule: Vec<MisterAutoSchedule> = Vec::new();
        schedule.push(MisterAutoSchedule::new(85000, 60 * 2, Some(60 * 5)));
        schedule.push(MisterAutoSchedule::new(88000, 60 * 3, Some(60)));
        schedule.push(MisterAutoSchedule::new(90000, 60 * 4, Some(60)));
        schedule.push(MisterAutoSchedule::new(92000, 60 * 4, Some(60)));
        schedule.push(MisterAutoSchedule::new(85000, 60 * 2, Some(60 * 5)));
        schedule.push(MisterAutoSchedule::new(80000, 60 * 5, Some(60)));
        assert(schedule@ =~= ConfigModel::defaults().mister_auto_schedule);
        ConfigInstance {
            wifi_ssid: String::new(),
            wifi_password: String::new(),
            display_enabled: true,
            network_enabled: true,
            sensor_enabled: true,
            sensor_driver: SensorDriver::default(),
            sensor_delay_ms: 500,
            sensor_delay_err_ms: 10000,
            sensor_calibration_rh_adj: Some(5000),
            controls_min_press_ms: 100,
            controls_min_hold_ms: 500,
            mister_auto_schedule: schedule,
            mister_auto_on_rh_adj: Some(-500),
            mister_auto_off_rh_adj: Some(500),
            mister_auto_duration_min_ms: 10000,
            reset_wait_secs: 5,
        }
    }
}

/// A partial configuration: a field that is not set leaves the field of the
/// configuration it is applied to as it is.
#[derive(Clone, Debug, PartialEq, Eq)]
pub struct MutableConfigInstance {
    pub sensor_driver: Option<SensorDriver>,
    pub sensor_calibration_rh_adj: Option<i32>,
    pub mister_auto_schedule: Option<Vec<MisterAutoSchedule>>,
    pub mister_auto_on_rh_adj: Option<i32>,
    pub mister_auto_off_rh_adj: Option<i32>,
}

/// What an overlay holds, as mathematical values.
pub struct OverlayModel {
    pub sensor_driver: Option<SensorDriver>,
    pub sensor_calibration_rh_adj: Option<i32>,
    pub mister_auto_schedule: Option<Seq<MisterAutoSchedule>>,
    pub mister_auto_on_rh_adj: Option<i32>,
    pub mister_auto_off_rh_adj: Option<i32>,
}

impl View for MutableConfigInstance {
    type V = OverlayModel;

    open spec fn view(&self) -> OverlayModel {
        OverlayModel {
            sensor_driver: self.sensor_driver,
            sensor_calibration_rh_adj: self.sensor_calibration_rh_adj,
            mister_auto_schedule: match self.mister_auto_schedule {
                Some(s) => Some(s@),
                None => None,
            },
            mister_auto_on_rh_adj: self.mister_auto_on_rh_adj,
            mister_auto_off_rh_adj: self.mister_auto_off_rh_adj,
        }
    }
}

impl OverlayModel {
    /// The overlay that sets nothing.
    pub open spec fn empty() -> OverlayModel {
        OverlayModel {
            sensor_driver: None,
            sensor_calibration_rh_adj: None,
            mister_auto_schedule: None,
            mister_auto_on_rh_adj: None,
            mister_auto_off_rh_adj: None,
        }
    }

    /// The configuration `base` with each field that the overlay sets
    /// replaced by the overlay's value.
    pub open spec fn populate(self, base: ConfigModel) -> ConfigModel {
        ConfigModel {
            sensor_driver: match self.sensor_driver {
                Some(v) => v,
                None => base.sensor_driver,
            },
            sensor_calibration_rh_adj: match self.sensor_calibration_rh_adj {
                Some(v) => Some(v),
                None => base.sensor_calibration_rh_adj,
            },
            mister_auto_schedule: match self.mister_auto_schedule {
                Some(v) => v,
                None => base.mister_auto_schedule,
            },
            mister_auto_on_rh_adj: match self.mister_auto_on_rh_adj {
                Some(v) => Some(v),
                None => base.mister_auto_on_rh_adj,
            },
            mister_auto_off_rh_adj: match self.mister_auto_off_rh_adj {
                Some(v) => Some(v),
                None => base.mister_auto_off_rh_adj,
            },
            ..base
        }
    }

    /// The overlay that sets every field an overlay can set that has a value
    /// in `cfg`.
    pub open spec fn of(cfg: ConfigModel) -> OverlayModel {
        OverlayModel {
            sensor_driver: Some(cfg.sensor_driver),
            sensor_calibration_rh_adj: cfg.sensor_calibration_rh_adj,
            mister_auto_schedule: Some(cfg.mister_auto_schedule),
            mister_auto_on_rh_adj: cfg.mister_auto_on_rh_adj,
            mister_auto_off_rh_adj: cfg.mister_auto_off_rh_adj,
        }
    }
}

impl MutableConfigInstance {
    /// The overlay that sets nothing.
    pub fn new() -> (r: MutableConfigInstance)
        ensures
            r@ == OverlayModel::empty(),
    {
        MutableConfigInstance {
            sensor_driver: None,
            sensor_calibration_rh_adj: None,
            mister_auto_schedule: None,
            mister_auto_on_rh_adj: None,
            mister_auto_off_rh_adj: None,
        }
    }

    /// Writes each field that is set into `cfg` and leaves the others as they
    /// are. Never fails.
    pub fn populate(self, cfg: &mut ConfigInstance) -> (r: Result<()>)
        ensures
            r is Ok,
            final(cfg)@ == self@.populate(old(cfg)@),
    {
        let MutableConfigInstance {
            sensor_driver,
            sensor_calibration_rh_adj,
            mister_auto_schedule,
            mister_auto_on_rh_adj,
            mister_auto_off_rh_adj,
        } = self;
        if let Some(val) = sensor_driver {
            cfg.sensor_driver = val;
        }
        if let Some(val) = sensor_calibration_rh_adj {
            cfg.sensor_calibration_rh_adj = Some(val);
        }
        if let Some(val) = mister_auto_schedule {
            cfg.mister_auto_schedule = val;
        }
        if let Some(val) = mister_auto_on_rh_adj {
            cfg.mister_auto_on_rh_adj = Some(val);
        }
        if let Some(val) = mister_auto_off_rh_adj {
            cfg.mister_auto_off_rh_adj = Some(val);
        }
        Ok(())
    }

}

impl From<&ConfigInstance> for MutableConfigInstance {
    /// The overlay that sets every field an overlay can set that has a value
    /// in `value`.
    fn from(value: &ConfigInstance) -> (r: MutableConfigInstance)
        ensures
            r@ == OverlayModel::of(value@),
    {
        MutableConfigInstance {
            sensor_driver: Some(value.sensor_driver),
            sensor_calibration_rh_adj: value.sensor_calibration_rh_adj,
            mister_auto_schedule: Some(copy_schedule(&value.mister_auto_schedule)),
            mister_auto_on_rh_adj: value.mister_auto_on_rh_adj,
            mister_auto_off_rh_adj: value.mister_auto_off_rh_adj,
        }
    }
}

impl vstd::std_specs::convert::FromSpecImpl<&ConfigInstance> for MutableConfigInstance {
    /// The conversion copies the schedule, so its result is stated over the
    /// views, by `from` itself.
    open spec fn obeys_from_spec() -> bool {
        false
    }

    open spec fn from_spec(value: &ConfigInstance) -> MutableConfigInstance {
        MutableConfigInstance {
            sensor_driver: Some(value.sensor_driver),
            sensor_calibration_rh_adj: value.sensor_calibration_rh_adj,
            mister_auto_schedule: Some(value.mister_auto_schedule),
            mister_auto_on_rh_adj: value.mister_auto_on_rh_adj,
            mister_auto_off_rh_adj: value.mister_auto_off_rh_adj,
        }
    }
}

/// A field that an overlay sets has the overlay's value after it was
/// applied; every other field has the value it had before.
pub proof fn lemma_populate_fields(overlay: OverlayModel, base: ConfigModel)
    ensures
        ({
            let cfg = overlay.populate(base);
            &&& overlay.sensor_driver matches Some(v) ==> cfg.sensor_driver == v
            &&& overlay.sensor_driver is None ==> cfg.sensor_driver == base.sensor_driver
            &&& overlay.sensor_calibration_rh_adj matches Some(v)
                ==> cfg.sensor_calibration_rh_adj == Some(v)
            &&& overlay.sensor_calibration_rh_adj is None ==> cfg.sensor_calibration_rh_adj
                == base.sensor_calibration_rh_adj
            &&& overlay.mister_auto_schedule matches Some(v) ==> cfg.mister_auto_schedule == v
            &&& overlay.mister_auto_schedule is None ==> cfg.mister_auto_schedule
                == base.mister_auto_schedule
            &&& overlay.mister_auto_on_rh_adj matches Some(v) ==> cfg.mister_auto_on_rh_adj
                == Some(v)
            &&& overlay.mister_auto_on_rh_adj is None ==> cfg.mister_auto_on_rh_adj
                == base.mister_auto_on_rh_adj
            &&& overlay.mister_auto_off_rh_adj matches Some(v) ==> cfg.mister_auto_off_rh_adj
                == Some(v)
            &&& overlay.mister_auto_off_rh_adj is None ==> cfg.mister_auto_off_rh_adj
                == base.mister_auto_off_rh_adj
            &&& cfg.wifi_ssid == base.wifi_ssid
            &&& cfg.wifi_password == base.wifi_password
            &&& cfg.display_enabled == base.display_enabled
            &&& cfg.network_enabled == base.network_enabled
            &&& cfg.sensor_enabled == base.sensor_enabled
            &&& cfg.sensor_delay_ms == base.sensor_delay_ms
            &&& cfg.sensor_delay_err_ms == base.sensor_delay_err_ms
            &&& cfg.controls_min_press_ms == base.controls_min_press_ms
            &&& cfg.controls_min_hold_ms == base.controls_min_hold_ms
            &&& cfg.mister_auto_duration_min_ms == base.mister_auto_duration_min_ms
            &&& cfg.reset_wait_secs == base.reset_wait_secs
        }),
{
}

/// The overlay taken from a configuration changes nothing when it is applied
/// to that configuration, and the overlay that sets nothing changes no
/// configuration.
pub proof fn lemma_populate_identity(cfg: ConfigModel)
    ensures
        OverlayModel::of(cfg).populate(cfg) == cfg,
        OverlayModel::empty().populate(cfg) == cfg,
{
}

} // verus!
