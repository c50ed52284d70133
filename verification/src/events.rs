//! Raw interrupt identifiers and the semantic events built from them.
//!
//! A raw event names only its interrupt source and is posted from interrupt
//! context through the notification bridge. The event translator turns it
//! into a timestamped, payload-bearing [`TwatchEvent`] consumed by tiles.

use vstd::prelude::*;

verus! {

/// Interrupt source identity. Carries no payload: only which peripheral
/// fired, in arrival order.
#[derive(Clone, Copy, Debug, PartialEq, Eq, Structural)]
pub enum TwatchRawEvent {
    Rtc,
    Timer,
    Touch,
    Pmu,
    Accel,
    Unknown,
}

/// The notification word posted for a raw event: one bit per source, so
/// that posts of distinct sources never mask each other.
pub open spec fn spec_raw_event_bit(e: TwatchRawEvent) -> u32 {
    match e {
        TwatchRawEvent::Rtc => 0x1u32,
        TwatchRawEvent::Timer => 0x2u32,
        TwatchRawEvent::Touch => 0x4u32,
        TwatchRawEvent::Pmu => 0x8u32,
        TwatchRawEvent::Accel => 0x10u32,
        TwatchRawEvent::Unknown => 0x8000_0000u32,
    }
}

/// The raw event a notification word stands for; every word that is not a
/// known source code decodes to `Unknown` (dropped later, never fatal).
pub open spec fn spec_raw_event_from_bits(v: u32) -> TwatchRawEvent {
    if v == 0x1u32 {
        TwatchRawEvent::Rtc
    } else if v == 0x2u32 {
        TwatchRawEvent::Timer
    } else if v == 0x4u32 {
        TwatchRawEvent::Touch
    } else if v == 0x8u32 {
        TwatchRawEvent::Pmu
    } else if v == 0x10u32 {
        TwatchRawEvent::Accel
    } else {
        TwatchRawEvent::Unknown
    }
}

impl TwatchRawEvent {
    /// Notification word for this source; decoding it yields this source
    /// back, so a posted event is never misread as another source.
    pub fn to_bits(self) -> (r: u32)
        ensures
            r == spec_raw_event_bit(self),
            spec_raw_event_from_bits(r) == self,
    {
        match self {
            TwatchRawEvent::Rtc => 0x1u32,
            TwatchRawEvent::Timer => 0x2u32,
            TwatchRawEvent::Touch => 0x4u32,
            TwatchRawEvent::Pmu => 0x8u32,
            TwatchRawEvent::Accel => 0x10u32,
            TwatchRawEvent::Unknown => 0x8000_0000u32,
        }
    }

    /// Decode a notification word.
    pub fn from_bits(v: u32) -> (r: Self)
        ensures
            r == spec_raw_event_from_bits(v),
    {
        if v == 0x1u32 {
            TwatchRawEvent::Rtc
        } else if v == 0x2u32 {
            TwatchRawEvent::Timer
        } else if v == 0x4u32 {
            TwatchRawEvent::Touch
        } else if v == 0x8u32 {
            TwatchRawEvent::Pmu
        } else if v == 0x10u32 {
            TwatchRawEvent::Accel
        } else {
            TwatchRawEvent::Unknown
        }
    }
}

/// One touch sample in panel coordinates (pixels; the panel is 240x240).
#[derive(Clone, Copy, Debug, PartialEq, Eq, Structural)]
pub struct TouchPoint {
    pub x: u16,
    pub y: u16,
}

/// Travel direction of a swipe, and of the slide transition it triggers.
#[derive(Clone, Copy, Debug, PartialEq, Eq, Structural)]
pub enum Direction {
    Up,
    Down,
    Left,
    Right,
}

/// Displacement and timing of a recognized swipe.
#[derive(Clone, Copy, Debug, PartialEq, Eq, Structural)]
pub struct SwipeInfo {
    /// Dominant-axis displacement between the two samples, in pixels.
    pub distance: u16,
    /// Time between the two samples, in milliseconds.
    pub duration_ms: u64,
}

/// A classified touch gesture: a single-point touch or a swipe.
#[derive(Clone, Copy, Debug, PartialEq, Eq, Structural)]
pub enum TouchEvent {
    TouchOnePoint(TouchPoint),
    Swipe(Direction, SwipeInfo),
}

/// What a semantic event means to the tile state machine.
#[derive(Clone, Copy, Debug, PartialEq, Eq, Structural)]
pub enum Kind {
    TimerRtc,
    Timer,
    Accel,
    Touch(TouchEvent),
    PmuButtonPressed,
    NewTile(crate::tiles::TileKind),
}

/// A semantic event: the translator's timestamp plus the meaning.
#[derive(Clone, Copy, Debug, PartialEq, Eq, Structural)]
pub struct TwatchEvent {
    /// Milliseconds since boot at translation time.
    pub time: u64,
    pub kind: Kind,
}

impl TwatchEvent {
    /// Build an event carrying the translator's timestamp.
    pub fn new(time: u64, kind: Kind) -> (r: Self)
        ensures
            r.time == time,
            r.kind == kind,
    {
        TwatchEvent { time, kind }
    }
}

} // verus!
