//! What the display shows, without the drawing: the values on screen,
//! whether they have changed since they were drawn, and where the text goes.

use vstd::prelude::*;
use crate::config::{ConfigInstance, ConfigModel};
use crate::event::Delivery;
use crate::mode::{Mode as MisterMode, Status as MisterStatus};
use crate::schedule::AutoScheduleState;
use crate::sensor::SensorMetrics;

verus! {

/// The width of the display in pixels.
pub const DISPLAY_WIDTH: u32 = 128;

/// The width of one gauge: half of the display.
pub const DISPLAY_HALF_WIDTH: u32 = 64;

/// The height of the display in pixels.
pub const DISPLAY_HEIGHT: u32 = 64;

/// The width of a character of the gauges in pixels.
pub const GAUGE_FONT_WIDTH: u32 = 10;

/// By how many pixels the gauge texts are moved towards the edge.
pub const GAUGE_PULL_SIDE_PX: u32 = 0;

/// What the lower part of the display shows.
#[derive(Copy, Clone, PartialEq, Eq, Debug, Structural)]
pub enum Mode {
    /// The mister's mode and status.
    MisterMode,
    /// The network address.
    Info,
}

impl Default for Mode {
    /// The display shows the mister unless asked otherwise.
    fn default() -> (r: Mode)
        ensures
            r == Mode::MisterMode,
    {
        Mode::MisterMode
    }
}

/// A request to show the given mode, or the default one where none is given.
#[derive(Copy, Clone, PartialEq, Eq, Debug)]
pub struct ChangeMode {
    pub mode: Option<Mode>,
}

impl ChangeMode {
    /// A request for the given mode, or for the default one where none is
    /// given.
    pub fn new(mode: Option<Mode>) -> (r: ChangeMode)
        ensures
            r.mode == mode,
    {
        ChangeMode { mode }
    }
}

impl Default for ChangeMode {
    /// A request for the default mode.
    fn default() -> (r: ChangeMode)
        ensures
            r.mode.is_none(),
    {
        ChangeMode::new(None)
    }
}

/// The values on screen. `stale` says that one of them has changed since
/// the screen was drawn.
#[derive(Copy, Clone, PartialEq, Eq, Debug)]
pub struct DisplayRenderer {
    pub stale: bool,
    /// Temperature in thousandths of a degree Celsius.
    pub temp: i32,
    /// Relative humidity in thousandths of a percent.
    pub rh: i32,
    pub mode: Mode,
    pub mister_mode: Option<MisterMode>,
    pub mister_status: MisterStatus,
}

/// What the display task takes.
#[derive(Copy, Clone, PartialEq, Eq, Debug)]
pub enum DisplayEvent {
    Sensor(Delivery<Option<SensorMetrics>>),
    ChangeMode(Delivery<ChangeMode>),
    MisterMode(Delivery<MisterMode>),
    MisterStatus(Delivery<MisterStatus>),
}

impl DisplayRenderer {
    /// The display with `temp` and `rh` on screen after the event was taken
    /// and before the screen was drawn. A reading or its absence marks the
    /// screen as changed only where a value differs; every other message
    /// marks it as changed.
    pub open spec fn after(self, event: DisplayEvent) -> DisplayRenderer {
        match event {
            DisplayEvent::Sensor(Delivery::Message(Some(msg))) => DisplayRenderer {
                stale: self.stale || msg.temp != self.temp || msg.rh != self.rh,
                temp: msg.temp,
                rh: msg.rh,
                ..self
            },
            DisplayEvent::Sensor(Delivery::Message(None)) => DisplayRenderer {
                stale: self.stale || 0 != self.temp || 0 != self.rh,
                temp: 0,
                rh: 0,
                ..self
            },
            DisplayEvent::ChangeMode(Delivery::Message(change)) => DisplayRenderer {
                stale: true,
                mode: match change.mode {
                    Some(mode) => mode,
                    None => Mode::MisterMode,
                },
                ..self
            },
            DisplayEvent::MisterMode(Delivery::Message(mode)) => DisplayRenderer {
                stale: true,
                mister_mode: Some(mode),
                ..self
            },
            DisplayEvent::MisterStatus(Delivery::Message(status)) => DisplayRenderer {
                stale: true,
                mister_status: status,
                ..self
            },
            _ => self,
        }
    }

    /// A display that shows the given reading and status and has not been
    /// drawn yet.
    pub fn new(temp: i32, rh: i32, mister_status: Option<MisterStatus>) -> (r: DisplayRenderer)
        ensures
            r == (DisplayRenderer {
                stale: true,
                temp,
                rh,
                mode: Mode::MisterMode,
                mister_mode: None,
                mister_status: match mister_status {
                    Some(status) => status,
                    None => MisterStatus::Off,
                },
            }),
    {
        DisplayRenderer {
            stale: true,
            temp,
            rh,
            mode: Mode::default(),
            mister_mode: None,
            mister_status: match mister_status {
                Some(status) => status,
                None => MisterStatus::Off,
            },
        }
    }

    /// Puts a reading on screen.
    pub fn apply_sensor_msg(&mut self, msg: SensorMetrics)
        ensures
            *final(self) == old(self).after(DisplayEvent::Sensor(Delivery::Message(Some(msg)))),
    {
        self.temp(msg.temp);
        self.rh(msg.rh);
    }

    /// Puts zeros on screen in place of a reading.
    pub fn clear_sensor(&mut self)
        ensures
            *final(self) == old(self).after(DisplayEvent::Sensor(Delivery::Message(None))),
    {
        self.temp(0);
        self.rh(0);
    }

    /// Says whether the screen has to be drawn, and takes it as drawn.
    pub fn draw(&mut self) -> (r: bool)
        ensures
            r == old(self).stale,
            *final(self) == (DisplayRenderer { stale: false, ..*old(self) }),
    {
        if !self.stale {
            return false;
        }
        self.stale = false;
        true
    }

    /// Sets what the lower part shows; the screen has to be drawn.
    pub fn mode(&mut self, val: Mode)
        ensures
            *final(self) == (DisplayRenderer { mode: val, stale: true, ..*old(self) }),
    {
        self.mode = val;
        self.stale = true
    }

    /// Sets the mister's mode; the screen has to be drawn.
    pub fn mister_mode(&mut self, val: Option<MisterMode>)
        ensures
            *final(self) == (DisplayRenderer { mister_mode: val, stale: true, ..*old(self) }),
    {
        self.mister_mode = val;
        self.stale = true
    }

    /// Sets the mister's status; the screen has to be drawn.
    pub fn mister_status(&mut self, val: MisterStatus)
        ensures
            *final(self) == (DisplayRenderer { mister_status: val, stale: true, ..*old(self) }),
    {
        self.mister_status = val;
        self.stale = true
    }

    /// Sets the temperature; the screen has to be drawn if it differs.
    pub fn temp(&mut self, val: i32)
        ensures
            *final(self) == (DisplayRenderer {
                temp: val,
                stale: old(self).stale || val != old(self).temp,
                ..*old(self)
            }),
    {
        if val != self.temp {
            self.temp = val;
            self.stale = true
        }
    }

    /// Sets the humidity; the screen has to be drawn if it differs.
    pub fn rh(&mut self, val: i32)
        ensures
            *final(self) == (DisplayRenderer {
                rh: val,
                stale: old(self).stale || val != old(self).rh,
                ..*old(self)
            }),
    {
        if val != self.rh {
            self.rh = val;
            self.stale = true
        }
    }
}

/// Takes one event of the display task and says whether the screen has to
/// be drawn. The notice that a subscriber fell behind changes nothing and
/// draws nothing.
pub fn display_task_poll(display_renderer: &mut DisplayRenderer, event: DisplayEvent) -> (r: bool)
    ensures
        ({
            let lagged = match event {
                DisplayEvent::Sensor(Delivery::Lagged(_)) => true,
                DisplayEvent::ChangeMode(Delivery::Lagged(_)) => true,
                DisplayEvent::MisterMode(Delivery::Lagged(_)) => true,
                DisplayEvent::MisterStatus(Delivery::Lagged(_)) => true,
                _ => false,
            };
            if lagged {
                !r && *final(display_renderer) == *old(display_renderer)
            } else {
                r == old(display_renderer).after(event).stale && *final(display_renderer) == (
                DisplayRenderer { stale: false, ..old(display_renderer).after(event) })
            }
        }),
{
    match event {
        DisplayEvent::Sensor(r) => match r {
            Delivery::Lagged(_) => { return false; },
            Delivery::Message(Some(msg)) => {
                display_renderer.apply_sensor_msg(msg);
            },
            Delivery::Message(None) => {
                display_renderer.clear_sensor();
            },
        },
        DisplayEvent::ChangeMode(r) => match r {
            Delivery::Lagged(_) => { return false; },
            Delivery::Message(change_mode) => match change_mode.mode {
                Some(mode) => {
                    display_renderer.mode(mode);
                },
                None => {
                    display_renderer.mode(Mode::default());
                },
            },
        },
        DisplayEvent::MisterMode(r) => match r {
            Delivery::Lagged(_) => { return false; },
            Delivery::Message(mode) => {
                display_renderer.mister_mode(Some(mode));
            },
        },
        DisplayEvent::MisterStatus(r) => match r {
            Delivery::Lagged(_) => { return false; },
            Delivery::Message(status) => {
                display_renderer.mister_status(status);
            },
        },
    }
    display_renderer.draw()
}

/// The column at which a gauge text of `chars` characters starts so that it
/// stands in the middle of its half of the display, moved left by
/// `pull_side_px`.
pub fn calculate_gauge_x(chars: u32, font_width: u32, pull_side_px: u32) -> (x: i32)
    requires
        chars * font_width <= DISPLAY_HALF_WIDTH,
        pull_side_px <= (DISPLAY_HALF_WIDTH - chars * font_width) / 2,
    ensures
        x == (DISPLAY_HALF_WIDTH - chars * font_width) / 2 - pull_side_px,
        0 <= x <= DISPLAY_HALF_WIDTH / 2,
{
    assert(chars * font_width <= 64);
    let mut x = (((DISPLAY_HALF_WIDTH - (chars * font_width)) / 2) - pull_side_px) as i32;
    if x < 0 {
        x = 0;
    }
    x
}

/// What the lower part of the display shows.
#[derive(Copy, Clone, PartialEq, Eq, Debug)]
pub enum StatusArea {
    /// The mister is in Auto: the target of the stepper's setpoint in whole
    /// percent, where the schedule holds it, and the mister's status.
    Auto { target: Option<u32>, status: MisterStatus },
    /// The mister is switched by hand: its status.
    Manual(MisterStatus),
    /// The network address.
    Info,
    /// Nothing: the mister's mode is not known yet.
    Blank,
}

/// A value in thousandths rounded up to whole units; nothing below zero.
pub open spec fn whole_units(thousandths: i32) -> u32 {
    if thousandths <= 0 {
        0
    } else {
        ((thousandths + 999) / 1000) as u32
    }
}

/// A value in thousandths rounded up to whole units; nothing below zero.
pub fn ceil_units(thousandths: i32) -> (r: u32)
    ensures
        r == whole_units(thousandths),
{
    if thousandths <= 0 {
        0
    } else {
        ((thousandths as i64 + 999) / 1000) as u32
    }
}

/// The text for a status of the mister.
pub fn status_label(status: MisterStatus) -> (r: &'static str)
    ensures
        r@ == match status {
            MisterStatus::On => "ON"@,
            MisterStatus::Off => "OFF"@,
            MisterStatus::Fault => "FAULT"@,
        },
{
    match status {
        MisterStatus::On => "ON",
        MisterStatus::Off => "OFF",
        MisterStatus::Fault => "FAULT",
    }
}

impl DisplayRenderer {
    /// What the lower part of the display shows for the stepper `active`.
    pub open spec fn status_area_of(self, active: AutoScheduleState, cfg: ConfigModel) -> StatusArea {
        match self.mode {
            Mode::MisterMode => match self.mister_mode {
                Some(MisterMode::Auto) => StatusArea::Auto {
                    target: match active.entry(cfg) {
                        Some(entry) => Some(whole_units(entry.rh)),
                        None => None,
                    },
                    status: self.mister_status,
                },
                Some(MisterMode::On) => StatusArea::Manual(MisterStatus::On),
                Some(MisterMode::Off) => StatusArea::Manual(MisterStatus::Off),
                None => StatusArea::Blank,
            },
            Mode::Info => StatusArea::Info,
        }
    }

    /// What the lower part of the display shows for the stepper `active`.
    pub fn status_area(&self, active: &AutoScheduleState, cfg: &ConfigInstance) -> (r: StatusArea)
        ensures
            r == self.status_area_of(*active, cfg@),
    {
        match self.mode {
            Mode::MisterMode => match self.mister_mode {
                Some(MisterMode::Auto) => StatusArea::Auto {
                    target: match active.get_auto_schedule(cfg) {
                        Some(entry) => Some(ceil_units(entry.rh)),
                        None => None,
                    },
                    status: self.mister_status,
                },
                Some(MisterMode::On) => StatusArea::Manual(MisterStatus::On),
                Some(MisterMode::Off) => StatusArea::Manual(MisterStatus::Off),
                None => StatusArea::Blank,
            },
            Mode::Info => StatusArea::Info,
        }
    }

    /// The column at which the temperature text starts: it has four
    /// characters from ten degrees on and three below.
    pub fn temp_gauge_x(&self) -> (x: i32)
        ensures
            x == if whole_units(self.temp) >= 10 {
                12i32
            } else {
                17i32
            },
    {
        calculate_gauge_x(
            if ceil_units(self.temp) >= 10 {
                4
            } else {
                3
            },
            GAUGE_FONT_WIDTH,
            GAUGE_PULL_SIDE_PX,
        )
    }

    /// The distance of the humidity text from the right edge: the text has
    /// five characters from ten percent on and four below.
    pub fn rh_gauge_x(&self) -> (x: i32)
        ensures
            x == if self.rh >= 10000 {
                7i32
            } else {
                12i32
            },
    {
        calculate_gauge_x(
            if self.rh >= 10000 {
                5
            } else {
                4
            },
            GAUGE_FONT_WIDTH,
            GAUGE_PULL_SIDE_PX,
        )
    }
}

} // verus!
