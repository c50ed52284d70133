//! The backlight screen: two buttons that raise and lower the brightness.

use vstd::prelude::*;

use crate::display::Backlight;
use crate::display::TwatchDisplay;
use crate::events::Direction;
use crate::events::Kind;
use crate::events::TouchEvent;
use crate::events::TouchPoint;
use crate::events::TwatchEvent;
use crate::tiles::Action;
use crate::tiles::TileKind;

verus! {

/// Brightness change per button press, in percent.
pub const LIGHT_LEVEL_STEP: u32 = 15;

/// The backlight screen; the level it adjusts lives in the compositor.
#[derive(Clone, Copy, Debug, PartialEq, Eq, Structural)]
pub struct LightTile {}

/// Whether a touch lands on the tile's button band.
pub open spec fn spec_light_button_hit(p: TouchPoint) -> bool {
    80 <= p.y <= 170
}

/// The backlight level after a press on the button band: the left half
/// raises by one step up to 100, the right half lowers by one step but
/// never below 10, so the screen cannot be dimmed to unreadable.
pub open spec fn spec_light_level_after(level: u32, p: TouchPoint) -> u32 {
    if p.x <= 120 {
        if level + LIGHT_LEVEL_STEP > 100 {
            100u32
        } else {
            (level + LIGHT_LEVEL_STEP) as u32
        }
    } else {
        if level >= 10 + LIGHT_LEVEL_STEP {
            (level - LIGHT_LEVEL_STEP) as u32
        } else {
            10u32
        }
    }
}

/// How the light tile answers a dispatched event: swipe left switches to
/// the hello tile, swipe right to the motor tile, other swipes are
/// consumed, a touch on the button band is consumed (it changes the
/// level), everything else is declined.
pub open spec fn spec_light_response(event: TwatchEvent) -> Option<TwatchEvent> {
    match event.kind {
        Kind::Touch(TouchEvent::Swipe(Direction::Left, _)) => Some(
            TwatchEvent { time: event.time, kind: Kind::NewTile(TileKind::Hello) },
        ),
        Kind::Touch(TouchEvent::Swipe(Direction::Right, _)) => Some(
            TwatchEvent { time: event.time, kind: Kind::NewTile(TileKind::Motor) },
        ),
        Kind::Touch(TouchEvent::Swipe(_, _)) => None,
        Kind::Touch(TouchEvent::TouchOnePoint(p)) => if spec_light_button_hit(p) {
            None
        } else {
            Some(event)
        },
        _ => Some(event),
    }
}

/// The compositor state after the light tile handles an event: a press
/// on the button band moves the backlight level, everything else leaves
/// the display alone.
pub open spec fn spec_light_display_after(d: TwatchDisplay, event: TwatchEvent) -> TwatchDisplay {
    match event.kind {
        Kind::Touch(TouchEvent::TouchOnePoint(p)) => if spec_light_button_hit(p) {
            TwatchDisplay {
                backlight: Backlight {
                    level: spec_light_level_after(d.backlight.level, p),
                    last_on_level: spec_light_level_after(d.backlight.level, p),
                },
                ..d
            }
        } else {
            d
        },
        _ => d,
    }
}

/// The device work the light tile requests for an event: drive the PWM
/// at the new level, then repaint and commit so the label shows it.
pub open spec fn spec_light_actions(level: u32, event: TwatchEvent) -> Seq<Action> {
    match event.kind {
        Kind::Touch(TouchEvent::TouchOnePoint(p)) => if spec_light_button_hit(p) {
            seq![
                Action::SetBacklight(spec_light_level_after(level, p)),
                Action::RenderTile(TileKind::Light),
                Action::CommitFull,
            ]
        } else {
            Seq::empty()
        },
        _ => Seq::empty(),
    }
}

impl Default for LightTile {
    /// The one light tile value.
    fn default() -> (r: Self)
        ensures
            r == (LightTile {  }),
    {
        LightTile {  }
    }
}

impl LightTile {
    /// Refresh: repaint and commit.
    pub fn run(&mut self) -> (r: Vec<Action>)
        ensures
            *final(self) == *old(self),
            r@ == seq![Action::RenderTile(TileKind::Light), Action::CommitFull],
    {
        let mut r: Vec<Action> = Vec::new();
        r.push(Action::RenderTile(TileKind::Light));
        r.push(Action::CommitFull);
        proof {
            assert(r@ =~= seq![Action::RenderTile(TileKind::Light), Action::CommitFull]);
        }
        r
    }

    /// Dispatch one event, adjusting the backlight on a button press.
    pub fn process_event(&mut self, display: &mut TwatchDisplay, event: TwatchEvent) -> (r: (
        Option<TwatchEvent>,
        Vec<Action>,
    ))
        requires
            old(display).wf(),
        ensures
            *final(self) == *old(self),
            final(display).wf(),
            *final(display) == spec_light_display_after(*old(display), event),
            r.0 == spec_light_response(event),
            r.1@ == spec_light_actions(old(display).backlight.level, event),
    {
        match event.kind {
            Kind::Touch(TouchEvent::Swipe(dir, _)) => {
                let resp = match dir {
                    Direction::Left => Some(
                        TwatchEvent::new(event.time, Kind::NewTile(TileKind::Hello)),
                    ),
                    Direction::Right => Some(
                        TwatchEvent::new(event.time, Kind::NewTile(TileKind::Motor)),
                    ),
                    _ => None,
                };
                (resp, Vec::new())
            },
            Kind::Touch(TouchEvent::TouchOnePoint(p)) => {
                if 80 <= p.y && p.y <= 170 {
                    let level = display.get_display_level();
                    let new_level: u32 = if p.x <= 120 {
                        if level + LIGHT_LEVEL_STEP > 100 {
                            100
                        } else {
                            level + LIGHT_LEVEL_STEP
                        }
                    } else {
                        if level >= 10 + LIGHT_LEVEL_STEP {
                            level - LIGHT_LEVEL_STEP
                        } else {
                            10
                        }
                    };
                    display.set_display_level(new_level);
                    let mut acts: Vec<Action> = Vec::new();
                    acts.push(Action::SetBacklight(new_level));
                    acts.push(Action::RenderTile(TileKind::Light));
                    acts.push(Action::CommitFull);
                    proof {
                        assert(acts@ =~= spec_light_actions(old(display).backlight.level, event));
                    }
                    (None, acts)
                } else {
                    (Some(event), Vec::new())
                }
            },
            _ => (Some(event), Vec::new()),
        }
    }
}

} // verus!
