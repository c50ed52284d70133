//! The watch face: time of day, battery level and accelerometer readout.
//!
//! The tile caches the last good reading of each sensor. A failed reading
//! leaves the cached value in place, so a transient sensor fault shows
//! the previous value instead of corrupting the display or the loop.

use vstd::prelude::*;

use crate::events::Direction;
use crate::events::Kind;
use crate::events::TouchEvent;
use crate::events::TwatchEvent;
use crate::tiles::Action;
use crate::tiles::TileKind;

verus! {

/// Pause before the swipe label is painted over, in milliseconds.
pub const SWIPE_LABEL_MS: u64 = 300;

/// A calendar time as the real-time clock chip keeps it.
#[derive(Clone, Copy, Debug, PartialEq, Eq, Structural)]
pub struct DateTime {
    /// Year within the century (0..=99).
    pub year: u8,
    pub month: u8,
    pub weekday: u8,
    pub day: u8,
    pub hours: u8,
    pub minutes: u8,
    pub seconds: u8,
}

/// One accelerometer sample, in thousandths of standard gravity.
#[derive(Clone, Copy, Debug, PartialEq, Eq, Structural)]
pub struct AccelFrame {
    pub x_mg: i32,
    pub y_mg: i32,
    pub z_mg: i32,
}

/// One round of sensor reads; `None` marks a read that failed, which
/// must leave the cached value in place.
#[derive(Clone, Copy, Debug, PartialEq, Eq, Structural)]
pub struct SensorReadings {
    /// Battery percentage.
    pub battery: Option<u8>,
    pub time: Option<DateTime>,
    pub accel: Option<AccelFrame>,
}

/// The watch face and its cached sensor values.
#[derive(Clone, Copy, Debug, PartialEq, Eq, Structural)]
pub struct TimeTile {
    /// Last good battery percentage.
    pub battery_level: u8,
    /// Last good clock reading.
    pub time: DateTime,
    /// Last good accelerometer sample.
    pub accel: AccelFrame,
    /// Whether activation armed the 1 Hz refresh tick.
    pub timer_armed: bool,
}

/// The zero calendar time the cache starts from.
pub open spec fn spec_zero_datetime() -> DateTime {
    DateTime { year: 0, month: 0, weekday: 0, day: 0, hours: 0, minutes: 0, seconds: 0 }
}

/// A watch face that has read nothing yet and holds no timer.
pub open spec fn spec_default_time_tile() -> TimeTile {
    TimeTile {
        battery_level: 0,
        time: spec_zero_datetime(),
        accel: AccelFrame { x_mg: 0, y_mg: 0, z_mg: 0 },
        timer_armed: false,
    }
}

/// The cache after one round of readings: each field takes its fresh
/// value when the read succeeded and keeps the cached one when it failed.
pub open spec fn spec_time_tile_updated(t: TimeTile, r: SensorReadings) -> TimeTile {
    TimeTile {
        battery_level: match r.battery {
            Some(b) => b,
            None => t.battery_level,
        },
        time: match r.time {
            Some(dt) => dt,
            None => t.time,
        },
        accel: match r.accel {
            Some(a) => a,
            None => t.accel,
        },
        timer_armed: t.timer_armed,
    }
}

/// How the watch face answers a dispatched event: swipe right switches to
/// the hello tile, other swipes are consumed (a direction label flashes),
/// the periodic tick is consumed (the face refreshes), everything else is
/// declined unconsumed.
pub open spec fn spec_time_response(event: TwatchEvent) -> Option<TwatchEvent> {
    match event.kind {
        Kind::Touch(TouchEvent::Swipe(Direction::Right, _)) => Some(
            TwatchEvent { time: event.time, kind: Kind::NewTile(TileKind::Hello) },
        ),
        Kind::Touch(TouchEvent::Swipe(_, _)) => None,
        Kind::Timer => None,
        _ => Some(event),
    }
}

/// The device work behind flashing a swipe label: refresh the caches,
/// paint the label over the face, commit, pause, then paint the plain
/// face again.
pub open spec fn spec_display_swipe_actions(dir: Direction) -> Seq<Action> {
    seq![
        Action::RefreshTileState,
        Action::RenderSwipe(dir),
        Action::RenderTile(TileKind::Time),
        Action::CommitFull,
        Action::DelayMs(SWIPE_LABEL_MS),
        Action::RenderTile(TileKind::Time),
        Action::CommitFull,
    ]
}

/// The device work the watch face requests for an event.
pub open spec fn spec_time_actions(event: TwatchEvent) -> Seq<Action> {
    match event.kind {
        Kind::Touch(TouchEvent::Swipe(Direction::Right, _)) => Seq::empty(),
        Kind::Touch(TouchEvent::Swipe(dir, _)) => spec_display_swipe_actions(dir),
        Kind::Timer => seq![
            Action::RefreshTileState,
            Action::RenderTile(TileKind::Time),
            Action::CommitFull,
        ],
        _ => Seq::empty(),
    }
}

impl Default for TimeTile {
    /// A watch face that has read nothing yet.
    fn default() -> (r: Self)
        ensures
            r == spec_default_time_tile(),
    {
        TimeTile {
            battery_level: 0,
            time: DateTime {
                year: 0,
                month: 0,
                weekday: 0,
                day: 0,
                hours: 0,
                minutes: 0,
                seconds: 0,
            },
            accel: AccelFrame { x_mg: 0, y_mg: 0, z_mg: 0 },
            timer_armed: false,
        }
    }
}

impl TimeTile {
    /// First activation: arm the 1 Hz tick that keeps the face fresh
    /// without polling every sensor every loop iteration.
    pub fn init(&mut self) -> (r: Vec<Action>)
        ensures
            *final(self) == (TimeTile { timer_armed: true, ..*old(self) }),
            r@ == seq![Action::ArmPeriodicTimer],
    {
        self.timer_armed = true;
        let mut r: Vec<Action> = Vec::new();
        r.push(Action::ArmPeriodicTimer);
        proof {
            assert(r@ =~= seq![Action::ArmPeriodicTimer]);
        }
        r
    }

    /// Refresh: read the sensors, repaint and commit.
    pub fn run(&mut self) -> (r: Vec<Action>)
        ensures
            *final(self) == *old(self),
            r@ == seq![
                Action::RefreshTileState,
                Action::RenderTile(TileKind::Time),
                Action::CommitFull,
            ],
    {
        let mut r: Vec<Action> = Vec::new();
        r.push(Action::RefreshTileState);
        r.push(Action::RenderTile(TileKind::Time));
        r.push(Action::CommitFull);
        proof {
            assert(r@ =~= seq![
                Action::RefreshTileState,
                Action::RenderTile(TileKind::Time),
                Action::CommitFull,
            ]);
        }
        r
    }

    /// Take one round of sensor readings into the cache; a failed read
    /// keeps the previously cached value.
    pub fn update_state(&mut self, readings: SensorReadings)
        ensures
            *final(self) == spec_time_tile_updated(*old(self), readings),
    {
        match readings.battery {
            Some(b) => {
                self.battery_level = b;
            },
            None => {},
        }
        match readings.time {
            Some(dt) => {
                self.time = dt;
            },
            None => {},
        }
        match readings.accel {
            Some(a) => {
                self.accel = a;
            },
            None => {},
        }
    }

    /// Flash the swipe's direction label over the face.
    pub fn display_swipe(&mut self, dir: Direction) -> (r: Vec<Action>)
        ensures
            *final(self) == *old(self),
            r@ == spec_display_swipe_actions(dir),
    {
        let mut r: Vec<Action> = Vec::new();
        r.push(Action::RefreshTileState);
        r.push(Action::RenderSwipe(dir));
        r.push(Action::RenderTile(TileKind::Time));
        r.push(Action::CommitFull);
        r.push(Action::DelayMs(SWIPE_LABEL_MS));
        r.push(Action::RenderTile(TileKind::Time));
        r.push(Action::CommitFull);
        proof {
            assert(r@ =~= spec_display_swipe_actions(dir));
        }
        r
    }

    /// Dispatch one event.
    pub fn process_event(&mut self, event: TwatchEvent) -> (r: (Option<TwatchEvent>, Vec<Action>))
        ensures
            *final(self) == *old(self),
            r.0 == spec_time_response(event),
            r.1@ == spec_time_actions(event),
    {
        match event.kind {
            Kind::Touch(TouchEvent::Swipe(dir, _)) => {
                match dir {
                    Direction::Right => (
                        Some(TwatchEvent::new(event.time, Kind::NewTile(TileKind::Hello))),
                        Vec::new(),
                    ),
                    _ => (None, self.display_swipe(dir)),
                }
            },
            Kind::Timer => (None, self.run()),
            _ => (Some(event), Vec::new()),
        }
    }
}

} // verus!
