//! The vibration motor screen: a button that pulses the motor.

use vstd::prelude::*;

use crate::events::Direction;
use crate::events::Kind;
use crate::events::TouchEvent;
use crate::events::TwatchEvent;
use crate::tiles::Action;
use crate::tiles::TileKind;

verus! {

/// Duration of one vibration pulse, in milliseconds.
pub const VIBRATE_PULSE_MS: u64 = 200;

/// The motor screen; it keeps no state.
#[derive(Clone, Copy, Debug, PartialEq, Eq, Structural)]
pub struct MotorTile {}

/// Whether a touch lands on the tile's button band.
pub open spec fn spec_motor_button_hit(p: crate::events::TouchPoint) -> bool {
    80 <= p.y <= 170
}

/// How the motor tile answers a dispatched event: swipe left switches to
/// the light tile, other swipes are consumed, a touch on the button band
/// is consumed (it pulses the motor), everything else is declined.
pub open spec fn spec_motor_response(event: TwatchEvent) -> Option<TwatchEvent> {
    match event.kind {
        Kind::Touch(TouchEvent::Swipe(Direction::Left, _)) => Some(
            TwatchEvent { time: event.time, kind: Kind::NewTile(TileKind::Light) },
        ),
        Kind::Touch(TouchEvent::Swipe(_, _)) => None,
        Kind::Touch(TouchEvent::TouchOnePoint(p)) => if spec_motor_button_hit(p) {
            None
        } else {
            Some(event)
        },
        _ => Some(event),
    }
}

/// The device work the motor tile requests for an event: one motor pulse
/// for a touch on the button band.
pub open spec fn spec_motor_actions(event: TwatchEvent) -> Seq<Action> {
    match event.kind {
        Kind::Touch(TouchEvent::TouchOnePoint(p)) => if spec_motor_button_hit(p) {
            seq![Action::VibrateOn, Action::DelayMs(VIBRATE_PULSE_MS), Action::VibrateOff]
        } else {
            Seq::empty()
        },
        _ => Seq::empty(),
    }
}

impl Default for MotorTile {
    /// The one motor tile value.
    fn default() -> (r: Self)
        ensures
            r == (MotorTile {  }),
    {
        MotorTile {  }
    }
}

impl MotorTile {
    /// Refresh: repaint and commit.
    pub fn run(&mut self) -> (r: Vec<Action>)
        ensures
            *final(self) == *old(self),
            r@ == seq![Action::RenderTile(TileKind::Motor), Action::CommitFull],
    {
        let mut r: Vec<Action> = Vec::new();
        r.push(Action::RenderTile(TileKind::Motor));
        r.push(Action::CommitFull);
        proof {
            assert(r@ =~= seq![Action::RenderTile(TileKind::Motor), Action::CommitFull]);
        }
        r
    }

    /// Dispatch one event.
    pub fn process_event(&mut self, event: TwatchEvent) -> (r: (Option<TwatchEvent>, Vec<Action>))
        ensures
            *final(self) == *old(self),
            r.0 == spec_motor_response(event),
            r.1@ == spec_motor_actions(event),
    {
        match event.kind {
            Kind::Touch(TouchEvent::Swipe(dir, _)) => {
                let resp = match dir {
                    Direction::Left => Some(
                        TwatchEvent::new(event.time, Kind::NewTile(TileKind::Light)),
                    ),
                    _ => None,
                };
                (resp, Vec::new())
            },
            Kind::Touch(TouchEvent::TouchOnePoint(p)) => {
                if 80 <= p.y && p.y <= 170 {
                    let mut acts: Vec<Action> = Vec::new();
                    acts.push(Action::VibrateOn);
                    acts.push(Action::DelayMs(VIBRATE_PULSE_MS));
                    acts.push(Action::VibrateOff);
                    proof {
                        assert(acts@ =~= spec_motor_actions(event));
                    }
                    (None, acts)
                } else {
                    (Some(event), Vec::new())
                }
            },
            _ => (Some(event), Vec::new()),
        }
    }
}

} // verus!
