//! Power management unit: power rails, the power-button latch, and the
//! battery gauge arithmetic.
//!
//! The struct mirrors the state the core relies on in the PMU chip. Rail
//! and interrupt writes are returned as actions for the driver loop; the
//! button latch models the chip's short-press interrupt latch, which is
//! cleared atomically as part of reading it.

use vstd::prelude::*;

use crate::tiles::Action;

verus! {

/// On/off state of a power output.
#[derive(Clone, Copy, Debug, PartialEq, Eq, Structural)]
pub enum State {
    On,
    Off,
}

/// The PMU power outputs the core switches.
#[derive(Clone, Copy, Debug, PartialEq, Eq, Structural)]
pub enum Power {
    Exten,
    DcDc2,
    Ldo2,
    Ldo3,
    Ldo4,
}

/// Battery percentage reported for one set of chip readings: while
/// charging the chip's own gauge is trusted unless it reads the invalid
/// marker `0x7F`; otherwise the percentage is derived from the battery
/// voltage, one point per 10 mV above 3200 mV, clamped to 0..=100.
pub open spec fn spec_battery_percentage(charging: bool, gauge: u8, voltage_mv: u16) -> int {
    if charging && gauge != 0x7F {
        gauge as int
    } else if voltage_mv <= 3200 {
        0
    } else if voltage_mv >= 4200 {
        100
    } else {
        (voltage_mv - 3200) / 10
    }
}

/// The PMU state the core depends on: which rails are up, whether the
/// short-press interrupt is armed, and the press latch itself.
#[derive(Clone, Copy, Debug, PartialEq, Eq, Structural)]
pub struct Pmu {
    /// Screen supply rail (LDO2).
    pub screen_power: State,
    /// Audio supply rail (LDO3).
    pub audio_power: State,
    /// Chip latch for a power-button short press; read-and-clear.
    pub button_latch: bool,
    /// Whether the short-press interrupt is armed.
    pub irq_enabled: bool,
}

impl Pmu {
    /// Fresh model: rails down, nothing latched, interrupt unarmed.
    pub fn new() -> (r: Self)
        ensures
            r.screen_power == State::Off,
            r.audio_power == State::Off,
            !r.button_latch,
            !r.irq_enabled,
    {
        Pmu {
            screen_power: State::Off,
            audio_power: State::Off,
            button_latch: false,
            irq_enabled: false,
        }
    }

    /// Boot initialization: power down the unused outputs, then arm the
    /// power-button interrupt and clear any stale latch.
    pub fn init(&mut self) -> (r: Vec<Action>)
        ensures
            final(self).screen_power == old(self).screen_power,
            final(self).audio_power == old(self).audio_power,
            !final(self).button_latch,
            final(self).irq_enabled,
            r@ == seq![
                Action::SetRailPower(Power::Exten, State::Off),
                Action::SetRailPower(Power::DcDc2, State::Off),
                Action::SetRailPower(Power::Ldo4, State::Off),
                Action::EnableButtonIrq,
                Action::ClearButtonIrq,
            ],
    {
        let mut r: Vec<Action> = Vec::new();
        r.push(Action::SetRailPower(Power::Exten, State::Off));
        r.push(Action::SetRailPower(Power::DcDc2, State::Off));
        r.push(Action::SetRailPower(Power::Ldo4, State::Off));
        let mut irq = self.init_irq();
        r.append(&mut irq);
        proof {
            assert(r@ =~= seq![
                Action::SetRailPower(Power::Exten, State::Off),
                Action::SetRailPower(Power::DcDc2, State::Off),
                Action::SetRailPower(Power::Ldo4, State::Off),
                Action::EnableButtonIrq,
                Action::ClearButtonIrq,
            ]);
        }
        r
    }

    /// Arm the short-press interrupt and clear the pending latch.
    pub fn init_irq(&mut self) -> (r: Vec<Action>)
        ensures
            final(self).screen_power == old(self).screen_power,
            final(self).audio_power == old(self).audio_power,
            !final(self).button_latch,
            final(self).irq_enabled,
            r@ == seq![Action::EnableButtonIrq, Action::ClearButtonIrq],
    {
        self.irq_enabled = true;
        self.button_latch = false;
        let mut r: Vec<Action> = Vec::new();
        r.push(Action::EnableButtonIrq);
        r.push(Action::ClearButtonIrq);
        proof {
            assert(r@ =~= seq![Action::EnableButtonIrq, Action::ClearButtonIrq]);
        }
        r
    }

    /// Switch the screen supply rail.
    pub fn set_screen_power(&mut self, state: State) -> (r: Vec<Action>)
        ensures
            final(self).screen_power == state,
            final(self).audio_power == old(self).audio_power,
            final(self).button_latch == old(self).button_latch,
            final(self).irq_enabled == old(self).irq_enabled,
            r@ == seq![Action::SetRailPower(Power::Ldo2, state)],
    {
        self.screen_power = state;
        let mut r: Vec<Action> = Vec::new();
        r.push(Action::SetRailPower(Power::Ldo2, state));
        proof {
            assert(r@ =~= seq![Action::SetRailPower(Power::Ldo2, state)]);
        }
        r
    }

    /// Switch the audio supply rail.
    pub fn set_audio_power(&mut self, state: State) -> (r: Vec<Action>)
        ensures
            final(self).screen_power == old(self).screen_power,
            final(self).audio_power == state,
            final(self).button_latch == old(self).button_latch,
            final(self).irq_enabled == old(self).irq_enabled,
            r@ == seq![Action::SetRailPower(Power::Ldo3, state)],
    {
        self.audio_power = state;
        let mut r: Vec<Action> = Vec::new();
        r.push(Action::SetRailPower(Power::Ldo3, state));
        proof {
            assert(r@ =~= seq![Action::SetRailPower(Power::Ldo3, state)]);
        }
        r
    }

    /// A power-button short press was latched by the chip; the interrupt
    /// handler mirrors that edge here before posting the raw event.
    pub fn latch_button_press(&mut self)
        ensures
            final(self).screen_power == old(self).screen_power,
            final(self).audio_power == old(self).audio_power,
            final(self).button_latch,
            final(self).irq_enabled == old(self).irq_enabled,
    {
        self.button_latch = true;
    }

    /// Read the short-press latch, clearing it as part of the read: true
    /// only on a fresh edge, so one press reads true exactly once however
    /// often the interrupt fired for it.
    pub fn is_button_pressed(&mut self) -> (r: bool)
        ensures
            r == old(self).button_latch,
            final(self).screen_power == old(self).screen_power,
            final(self).audio_power == old(self).audio_power,
            !final(self).button_latch,
            final(self).irq_enabled == old(self).irq_enabled,
    {
        let pressed = self.button_latch;
        self.button_latch = false;
        pressed
    }

    /// Battery percentage from one set of chip readings: the charge
    /// gauge, used only while charging and when not the invalid marker,
    /// or else the voltage mapped to whole percentage points.
    pub fn get_battery_percentage(&self, charging: bool, gauge: u8, voltage_mv: u16) -> (r: u8)
        ensures
            r == spec_battery_percentage(charging, gauge, voltage_mv),
    {
        if charging && gauge != 0x7F {
            gauge
        } else if voltage_mv <= 3200 {
            0
        } else if voltage_mv >= 4200 {
            100
        } else {
            ((voltage_mv - 3200) / 10) as u8
        }
    }
}

} // verus!
