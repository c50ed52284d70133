//! The sleep screen: the watch is dark and waits for the power button.
//!
//! The global power-button override lives in the state machine, not here:
//! no tile — this one included — can suppress or reinterpret the power
//! button, so the sleep tile declines every event it is handed.

use vstd::prelude::*;

use crate::events::TwatchEvent;
use crate::tiles::Action;
use crate::twatch::spec_hal_after_light_sleep;
use crate::twatch::spec_light_sleep_actions;
use crate::twatch::Hal;

verus! {

/// The dark screen; it keeps no state.
#[derive(Clone, Copy, Debug, PartialEq, Eq, Structural)]
pub struct SleepTile {}

impl Default for SleepTile {
    /// The one sleep tile value.
    fn default() -> (r: Self)
        ensures
            r == (SleepTile {  }),
    {
        SleepTile {  }
    }
}

impl SleepTile {
    /// Refresh while asleep: keep the rails down.
    pub fn run(&mut self, hal: &mut Hal) -> (r: Vec<Action>)
        requires
            old(hal).wf(),
        ensures
            *final(self) == *old(self),
            final(hal).wf(),
            *final(hal) == spec_hal_after_light_sleep(*old(hal)),
            r@ == spec_light_sleep_actions(),
    {
        hal.light_sleep()
    }

    /// Dispatch one event: always declined unconsumed, so nothing the
    /// sleeping watch receives is acted on by the tile itself.
    pub fn process_event(&mut self, event: TwatchEvent) -> (r: (Option<TwatchEvent>, Vec<Action>))
        ensures
            *final(self) == *old(self),
            r.0 == Some(event),
            r.1@ == Seq::<Action>::empty(),
    {
        (Some(event), Vec::new())
    }
}

} // verus!
