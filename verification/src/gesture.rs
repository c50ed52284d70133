//! Minimal gesture classifier of the event translator.
//!
//! The classifier holds only the immediately preceding touch sample. A
//! sample that does not chain to the previous one (no previous sample, or
//! too much time has passed) is a single-point touch; a chained sample
//! whose displacement on the dominant axis reaches the swipe threshold is
//! a swipe in that axis' direction; a chained sample below the threshold
//! carries no new information and yields nothing.

use vstd::prelude::*;

use crate::events::Direction;
use crate::events::SwipeInfo;
use crate::events::TouchEvent;
use crate::events::TouchPoint;

verus! {

/// Minimum dominant-axis displacement, in pixels, for a swipe.
pub const SWIPE_MIN_DISTANCE: u16 = 40;

/// Maximum time between two samples of one gesture, in milliseconds; a
/// later sample starts a new touch.
pub const TOUCH_CHAIN_MS: u64 = 500;

/// One remembered touch sample.
#[derive(Clone, Copy, Debug, PartialEq, Eq, Structural)]
pub struct TouchRecord {
    pub time_ms: u64,
    pub point: TouchPoint,
}

/// Whether a sample at `time_ms` continues the gesture begun at `prev`.
pub open spec fn spec_chained(prev: Option<TouchRecord>, time_ms: u64) -> bool {
    match prev {
        Some(r) => r.time_ms <= time_ms && time_ms - r.time_ms <= TOUCH_CHAIN_MS,
        None => false,
    }
}

/// Classification of a chained sample against the preceding one: a swipe
/// along the dominant axis when its displacement reaches the threshold
/// (ties go to the horizontal axis), otherwise nothing new.
pub open spec fn spec_swipe_of(prev: TouchRecord, time_ms: u64, p: TouchPoint) -> Option<
    TouchEvent,
> {
    let dx = p.x - prev.point.x;
    let dy = p.y - prev.point.y;
    let adx = if dx < 0 {
        -dx
    } else {
        dx
    };
    let ady = if dy < 0 {
        -dy
    } else {
        dy
    };
    if adx >= ady && adx >= SWIPE_MIN_DISTANCE {
        Some(
            TouchEvent::Swipe(
                if dx < 0 {
                    Direction::Left
                } else {
                    Direction::Right
                },
                SwipeInfo {
                    distance: adx as u16,
                    duration_ms: (time_ms - prev.time_ms) as u64,
                },
            ),
        )
    } else if ady >= SWIPE_MIN_DISTANCE {
        Some(
            TouchEvent::Swipe(
                if dy < 0 {
                    Direction::Up
                } else {
                    Direction::Down
                },
                SwipeInfo {
                    distance: ady as u16,
                    duration_ms: (time_ms - prev.time_ms) as u64,
                },
            ),
        )
    } else {
        None
    }
}

/// What one sample yields: a single-point touch when it starts a gesture,
/// a swipe or nothing when it continues one.
pub open spec fn spec_classify(prev: Option<TouchRecord>, time_ms: u64, p: TouchPoint) -> Option<
    TouchEvent,
> {
    if spec_chained(prev, time_ms) {
        spec_swipe_of(prev.unwrap(), time_ms, p)
    } else {
        Some(TouchEvent::TouchOnePoint(p))
    }
}

/// The remembered sample after processing one: cleared once a swipe is
/// emitted, otherwise replaced by the latest sample.
pub open spec fn spec_classifier_after(
    prev: Option<TouchRecord>,
    time_ms: u64,
    p: TouchPoint,
) -> Option<TouchRecord> {
    if spec_chained(prev, time_ms) && spec_swipe_of(prev.unwrap(), time_ms, p) is Some {
        None
    } else {
        Some(TouchRecord { time_ms, point: p })
    }
}

/// Classifier state: only the immediately preceding sample.
#[derive(Clone, Copy, Debug, PartialEq, Eq, Structural)]
pub struct GestureClassifier {
    pub prev: Option<TouchRecord>,
}

impl GestureClassifier {
    /// A classifier that has seen nothing.
    pub fn new() -> (r: Self)
        ensures
            r.prev is None,
    {
        GestureClassifier { prev: None }
    }

    /// Feed one polled sample; yields the gesture it completes, if any.
    pub fn process(&mut self, time_ms: u64, p: TouchPoint) -> (r: Option<TouchEvent>)
        ensures
            r == spec_classify(old(self).prev, time_ms, p),
            final(self).prev == spec_classifier_after(old(self).prev, time_ms, p),
    {
        let chained = match self.prev {
            Some(rec) => rec.time_ms <= time_ms && time_ms - rec.time_ms <= TOUCH_CHAIN_MS,
            None => false,
        };
        if !chained {
            self.prev = Some(TouchRecord { time_ms, point: p });
            return Some(TouchEvent::TouchOnePoint(p));
        }
        let rec = match self.prev {
            Some(rec) => rec,
            None => TouchRecord { time_ms, point: p },
        };
        let dx: i32 = p.x as i32 - rec.point.x as i32;
        let dy: i32 = p.y as i32 - rec.point.y as i32;
        let adx: i32 = if dx < 0 {
            -dx
        } else {
            dx
        };
        let ady: i32 = if dy < 0 {
            -dy
        } else {
            dy
        };
        let duration = time_ms - rec.time_ms;
        if adx >= ady && adx >= SWIPE_MIN_DISTANCE as i32 {
            self.prev = None;
            let dir = if dx < 0 {
                Direction::Left
            } else {
                Direction::Right
            };
            Some(TouchEvent::Swipe(dir, SwipeInfo { distance: adx as u16, duration_ms: duration }))
        } else if ady >= SWIPE_MIN_DISTANCE as i32 {
            self.prev = None;
            let dir = if dy < 0 {
                Direction::Up
            } else {
                Direction::Down
            };
            Some(TouchEvent::Swipe(dir, SwipeInfo { distance: ady as u16, duration_ms: duration }))
        } else {
            self.prev = Some(TouchRecord { time_ms, point: p });
            None
        }
    }
}

} // verus!
