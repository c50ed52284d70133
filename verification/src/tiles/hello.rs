//! The default landing screen: a greeting and a hint to swipe.

use vstd::prelude::*;

use crate::events::Direction;
use crate::events::Kind;
use crate::events::TouchEvent;
use crate::events::TwatchEvent;
use crate::tiles::Action;
use crate::tiles::TileKind;

verus! {

/// The greeting screen; it keeps no state.
#[derive(Clone, Copy, Debug, PartialEq, Eq, Structural)]
pub struct HelloTile {}

/// How the hello tile answers a dispatched event: swipe left switches to
/// the time tile, swipe right to the light tile, other swipes are
/// consumed, everything else is declined unconsumed.
pub open spec fn spec_hello_response(event: TwatchEvent) -> Option<TwatchEvent> {
    match event.kind {
        Kind::Touch(TouchEvent::Swipe(Direction::Left, _)) => Some(
            TwatchEvent { time: event.time, kind: Kind::NewTile(TileKind::Time) },
        ),
        Kind::Touch(TouchEvent::Swipe(Direction::Right, _)) => Some(
            TwatchEvent { time: event.time, kind: Kind::NewTile(TileKind::Light) },
        ),
        Kind::Touch(TouchEvent::Swipe(_, _)) => None,
        _ => Some(event),
    }
}

impl Default for HelloTile {
    /// The one hello tile value.
    fn default() -> (r: Self)
        ensures
            r == (HelloTile {  }),
    {
        HelloTile {  }
    }
}

impl HelloTile {
    /// First activation: paint the greeting and commit the frame.
    pub fn init(&mut self) -> (r: Vec<Action>)
        ensures
            *final(self) == *old(self),
            r@ == seq![Action::RenderTile(TileKind::Hello), Action::CommitFull],
    {
        let mut r: Vec<Action> = Vec::new();
        r.push(Action::RenderTile(TileKind::Hello));
        r.push(Action::CommitFull);
        proof {
            assert(r@ =~= seq![Action::RenderTile(TileKind::Hello), Action::CommitFull]);
        }
        r
    }

    /// Refresh: repaint and commit (the buffer is cleared after every
    /// full commit, so everything visible is repainted).
    pub fn run(&mut self) -> (r: Vec<Action>)
        ensures
            *final(self) == *old(self),
            r@ == seq![Action::RenderTile(TileKind::Hello), Action::CommitFull],
    {
        self.init()
    }

    /// Dispatch one event; the tile performs no device work of its own.
    pub fn process_event(&mut self, event: TwatchEvent) -> (r: (Option<TwatchEvent>, Vec<Action>))
        ensures
            *final(self) == *old(self),
            r.0 == spec_hello_response(event),
            r.1@ == Seq::<Action>::empty(),
    {
        let resp = match event.kind {
            Kind::Touch(TouchEvent::Swipe(Direction::Left, _)) => Some(
                TwatchEvent::new(event.time, Kind::NewTile(TileKind::Time)),
            ),
            Kind::Touch(TouchEvent::Swipe(Direction::Right, _)) => Some(
                TwatchEvent::new(event.time, Kind::NewTile(TileKind::Light)),
            ),
            Kind::Touch(TouchEvent::Swipe(_, _)) => None,
            _ => Some(event),
        };
        (resp, Vec::new())
    }
}

} // verus!
