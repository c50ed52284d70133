//! The watch core: the HAL state model, the power controller, the event
//! translator and the tile state machine.
//!
//! `Hal` mirrors the peripheral state the core's decisions depend on. The
//! driver layer owns the physical bus and pins; every physical effect the
//! core wants is returned as an action list, in the order it must be
//! performed.

use vstd::prelude::*;

use crate::display::Backlight;
use crate::display::TwatchDisplay;
use crate::events::Kind;
use crate::events::TouchEvent;
use crate::events::TouchPoint;
use crate::events::TwatchEvent;
use crate::events::TwatchRawEvent;
use crate::gesture::spec_classifier_after;
use crate::gesture::spec_classify;
use crate::gesture::GestureClassifier;
use crate::pmu::Pmu;
use crate::pmu::State;
use crate::tiles::move_to_tile;
use crate::tiles::spec_move_to_tile_actions;
use crate::tiles::time::SensorReadings;
use crate::tiles::Action;
use crate::tiles::Tile;
use crate::tiles::TileKind;

verus! {

/// Peripheral state the core relies on: power management, display and
/// the touch classifier.
pub struct Hal {
    pub pmu: Pmu,
    pub display: TwatchDisplay,
    pub gesture: GestureClassifier,
}

/// A backlight after switching the display off: dark, remembering the
/// level that was lit.
pub open spec fn spec_backlight_off(b: Backlight) -> Backlight {
    Backlight {
        level: 0,
        last_on_level: if b.level > 0 {
            b.level
        } else {
            b.last_on_level
        },
    }
}

/// HAL state after entering light sleep: backlight dark, screen and audio
/// rails down. Interrupt sources stay armed, so the power button can
/// still wake the watch.
pub open spec fn spec_hal_after_light_sleep(h: Hal) -> Hal {
    Hal {
        pmu: Pmu { screen_power: State::Off, audio_power: State::Off, ..h.pmu },
        display: TwatchDisplay {
            backlight: spec_backlight_off(h.display.backlight),
            ..h.display
        },
        gesture: h.gesture,
    }
}

/// The device writes light sleep performs, in order.
pub open spec fn spec_light_sleep_actions() -> Seq<Action> {
    seq![
        Action::SetBacklight(0),
        Action::SetRailPower(crate::pmu::Power::Ldo2, State::Off),
        Action::SetRailPower(crate::pmu::Power::Ldo3, State::Off),
    ]
}

/// HAL state after waking: screen rail up and the backlight restored to
/// the level in use before sleep. The audio rail stays down until
/// something needs it.
pub open spec fn spec_hal_after_wake(h: Hal) -> Hal {
    Hal {
        pmu: Pmu { screen_power: State::On, ..h.pmu },
        display: TwatchDisplay {
            backlight: Backlight {
                level: h.display.backlight.last_on_level,
                last_on_level: h.display.backlight.last_on_level,
            },
            ..h.display
        },
        gesture: h.gesture,
    }
}

/// The device writes waking performs, in order.
pub open spec fn spec_wake_actions(h: Hal) -> Seq<Action> {
    seq![
        Action::SetBacklight(h.display.backlight.last_on_level),
        Action::SetRailPower(crate::pmu::Power::Ldo2, State::On),
    ]
}

/// The device writes deep sleep performs, in order: the light-sleep
/// writes, then arming the button pin as wake source, parking the motor
/// and halting.
pub open spec fn spec_deep_sleep_actions() -> Seq<Action> {
    spec_light_sleep_actions() + seq![
        Action::EnableButtonWake,
        Action::VibrateOff,
        Action::EnterDeepSleep,
    ]
}

impl Hal {
    /// The framebuffer and brightness bounds always hold.
    pub open spec fn wf(self) -> bool {
        self.display.wf()
    }

    /// Fresh model: rails down, cleared frame, full brightness, no touch
    /// sample remembered.
    pub fn new() -> (r: Self)
        ensures
            r.wf(),
            r.pmu == (Pmu {
                screen_power: State::Off,
                audio_power: State::Off,
                button_latch: false,
                irq_enabled: false,
            }),
            r.display.framebuffer@ == crate::display::spec_black_frame(),
            r.display.backlight == (Backlight { level: 100, last_on_level: 100 }),
            r.gesture.prev is None,
    {
        Hal { pmu: Pmu::new(), display: TwatchDisplay::new(Backlight::new()), gesture: GestureClassifier::new() }
    }

    /// Enter light sleep: backlight off, screen and audio rails down.
    /// Interrupt sources remain armed.
    pub fn light_sleep(&mut self) -> (r: Vec<Action>)
        requires
            old(self).wf(),
        ensures
            final(self).wf(),
            *final(self) == spec_hal_after_light_sleep(*old(self)),
            r@ == spec_light_sleep_actions(),
    {
        self.display.set_display_off();
        let mut r: Vec<Action> = Vec::new();
        r.push(Action::SetBacklight(0));
        let mut screen = self.pmu.set_screen_power(State::Off);
        r.append(&mut screen);
        let mut audio = self.pmu.set_audio_power(State::Off);
        r.append(&mut audio);
        proof {
            assert(r@ =~= spec_light_sleep_actions());
        }
        r
    }

    /// Enter deep sleep: the light-sleep writes, then arm the button pin
    /// as external wake source and halt. Recoverable only through a
    /// hardware wake, not through further event dispatch.
    pub fn deep_sleep(&mut self) -> (r: Vec<Action>)
        requires
            old(self).wf(),
        ensures
            final(self).wf(),
            *final(self) == spec_hal_after_light_sleep(*old(self)),
            r@ == spec_deep_sleep_actions(),
    {
        let mut r = self.light_sleep();
        r.push(Action::EnableButtonWake);
        r.push(Action::VibrateOff);
        r.push(Action::EnterDeepSleep);
        proof {
            assert(r@ =~= spec_deep_sleep_actions());
        }
        r
    }

    /// Wake from light sleep: screen rail up and the backlight restored
    /// to the brightness in use before sleep.
    pub fn wake_up(&mut self) -> (r: Vec<Action>)
        requires
            old(self).wf(),
        ensures
            final(self).wf(),
            *final(self) == spec_hal_after_wake(*old(self)),
            r@ == spec_wake_actions(*old(self)),
    {
        self.display.set_display_on();
        let mut r: Vec<Action> = Vec::new();
        r.push(Action::SetBacklight(self.display.get_display_level()));
        let mut screen = self.pmu.set_screen_power(State::On);
        r.append(&mut screen);
        proof {
            assert(r@ =~= spec_wake_actions(*old(self)));
        }
        r
    }
}

/// The fixed default landing tile: shown at boot, and returned to when
/// the power button wakes the watch from sleep.
pub open spec fn spec_default_landing() -> TileKind {
    TileKind::Hello
}

/// The fixed default landing tile.
pub fn default_landing() -> (r: TileKind)
    ensures
        r == spec_default_landing(),
{
    TileKind::Hello
}

/// The semantic event one raw event translates to, given the HAL state
/// and the touch sample polled for a touch interrupt. A failed or empty
/// poll and unknown sources translate to no event: a transient fault
/// never corrupts the event stream.
pub open spec fn spec_translate(
    h: Hal,
    time_ms: u64,
    raw: TwatchRawEvent,
    touch: Option<TouchPoint>,
) -> Option<TwatchEvent> {
    match raw {
        TwatchRawEvent::Touch => match touch {
            Some(p) => match spec_classify(h.gesture.prev, time_ms, p) {
                Some(te) => Some(TwatchEvent { time: time_ms, kind: Kind::Touch(te) }),
                None => None,
            },
            None => None,
        },
        TwatchRawEvent::Accel => None,
        TwatchRawEvent::Pmu => if h.pmu.button_latch {
            Some(TwatchEvent { time: time_ms, kind: Kind::PmuButtonPressed })
        } else {
            None
        },
        TwatchRawEvent::Rtc => None,
        TwatchRawEvent::Timer => Some(TwatchEvent { time: time_ms, kind: Kind::Timer }),
        TwatchRawEvent::Unknown => None,
    }
}

/// The HAL state after one translation: a touch sample advances the
/// gesture classifier; a PMU read clears the button latch as part of
/// reading it; nothing else changes.
pub open spec fn spec_hal_after_translate(
    h: Hal,
    time_ms: u64,
    raw: TwatchRawEvent,
    touch: Option<TouchPoint>,
) -> Hal {
    match raw {
        TwatchRawEvent::Touch => match touch {
            Some(p) => Hal {
                gesture: GestureClassifier { prev: spec_classifier_after(h.gesture.prev, time_ms, p) },
                ..h
            },
            None => h,
        },
        TwatchRawEvent::Pmu => Hal { pmu: Pmu { button_latch: false, ..h.pmu }, ..h },
        _ => h,
    }
}

/// The watch: the HAL state and the one active tile.
pub struct Twatch {
    pub hal: Hal,
    pub current_tile: Tile,
}

/// Next watch state after one full pipeline step: translate the raw
/// event; apply the global power-button override, or dispatch to the
/// active tile and apply the tile switch its answer requests.
pub open spec fn spec_after_step(
    t: Twatch,
    time_ms: u64,
    raw: TwatchRawEvent,
    touch: Option<TouchPoint>,
) -> Twatch {
    let hal1 = spec_hal_after_translate(t.hal, time_ms, raw, touch);
    match spec_translate(t.hal, time_ms, raw, touch) {
        None => Twatch { hal: hal1, current_tile: t.current_tile },
        Some(e) => match e.kind {
            Kind::PmuButtonPressed => match t.current_tile {
                Tile::Sleep(_) => Twatch {
                    hal: spec_hal_after_wake(hal1),
                    current_tile: Tile::spec_make(spec_default_landing()).spec_init_tile(),
                },
                _ => Twatch {
                    hal: spec_hal_after_light_sleep(hal1),
                    current_tile: Tile::spec_make(TileKind::Sleep).spec_init_tile(),
                },
            },
            _ => {
                let hal2 = t.current_tile.spec_event_hal(hal1, e);
                match t.current_tile.spec_response(e) {
                    Some(e2) => match e2.kind {
                        Kind::NewTile(k) => Twatch {
                            hal: hal2,
                            current_tile: Tile::spec_make(k).spec_init_tile(),
                        },
                        _ => Twatch { hal: hal2, current_tile: t.current_tile },
                    },
                    None => Twatch { hal: hal2, current_tile: t.current_tile },
                }
            },
        },
    }
}

/// The actions one full pipeline step requests, in order.
pub open spec fn spec_step_actions(
    t: Twatch,
    time_ms: u64,
    raw: TwatchRawEvent,
    touch: Option<TouchPoint>,
) -> Seq<Action> {
    let hal1 = spec_hal_after_translate(t.hal, time_ms, raw, touch);
    match spec_translate(t.hal, time_ms, raw, touch) {
        None => Seq::empty(),
        Some(e) => match e.kind {
            Kind::PmuButtonPressed => match t.current_tile {
                Tile::Sleep(_) => spec_wake_actions(hal1)
                    + t.current_tile.spec_release_actions() + Tile::spec_make(
                    spec_default_landing(),
                ).spec_init_actions(),
                _ => spec_light_sleep_actions() + t.current_tile.spec_release_actions()
                    + Tile::spec_make(TileKind::Sleep).spec_init_actions(),
            },
            _ => {
                let acts = t.current_tile.spec_event_actions(hal1, e);
                match t.current_tile.spec_response(e) {
                    Some(e2) => match e2.kind {
                        Kind::NewTile(k) => acts + t.current_tile.spec_release_actions()
                            + Tile::spec_make(k).spec_init_actions() + (match e.kind {
                            Kind::Touch(TouchEvent::Swipe(d, _)) => spec_move_to_tile_actions(k, d),
                            _ => Seq::empty(),
                        }),
                        _ => acts,
                    },
                    None => acts,
                }
            },
        },
    }
}

/// The tile switch a step applies through a tile's `NewTile` answer, if
/// any (the power-button override's switches to and from sleep are not
/// tile answers).
pub open spec fn spec_step_switch(
    t: Twatch,
    time_ms: u64,
    raw: TwatchRawEvent,
    touch: Option<TouchPoint>,
) -> Option<TileKind> {
    match spec_translate(t.hal, time_ms, raw, touch) {
        Some(e) => match e.kind {
            Kind::PmuButtonPressed => None,
            _ => match t.current_tile.spec_response(e) {
                Some(e2) => match e2.kind {
                    Kind::NewTile(k) => Some(k),
                    _ => None,
                },
                None => None,
            },
        },
        None => None,
    }
}

/// The tile one step's event is dispatched to: the active tile, except
/// that the power-button override is handled by the state machine itself
/// and reaches no tile.
pub open spec fn spec_dispatch_target(
    t: Twatch,
    time_ms: u64,
    raw: TwatchRawEvent,
    touch: Option<TouchPoint>,
) -> Option<Tile> {
    match spec_translate(t.hal, time_ms, raw, touch) {
        Some(e) => match e.kind {
            Kind::PmuButtonPressed => None,
            _ => Some(t.current_tile),
        },
        None => None,
    }
}

/// The device work boot initialization requests, in order: configure the
/// PMU, bring up the panel, power and light the screen, then bring up
/// the input peripherals.
pub open spec fn spec_boot_actions() -> Seq<Action> {
    seq![
        Action::SetRailPower(crate::pmu::Power::Exten, State::Off),
        Action::SetRailPower(crate::pmu::Power::DcDc2, State::Off),
        Action::SetRailPower(crate::pmu::Power::Ldo4, State::Off),
        Action::EnableButtonIrq,
        Action::ClearButtonIrq,
        Action::InitPanel,
        Action::SetRailPower(crate::pmu::Power::Ldo2, State::On),
        Action::SetBacklight(25),
        Action::InitTouch,
        Action::InitAccel,
    ]
}

impl Twatch {
    /// The HAL bounds hold and the active tile has completed activation:
    /// no tile is ever dispatched an event before its activation ran.
    pub open spec fn wf(self) -> bool {
        &&& self.hal.wf()
        &&& self.current_tile.spec_ready()
    }

    /// A watch at boot: fresh HAL model, the default landing tile active.
    pub fn new() -> (r: Self)
        ensures
            r.wf(),
            r.current_tile == Tile::spec_make(spec_default_landing()),
            r.hal.pmu == (Pmu {
                screen_power: State::Off,
                audio_power: State::Off,
                button_latch: false,
                irq_enabled: false,
            }),
            r.hal.display.framebuffer@ == crate::display::spec_black_frame(),
            r.hal.display.backlight == (Backlight { level: 100, last_on_level: 100 }),
            r.hal.gesture.prev is None,
    {
        Twatch { hal: Hal::new(), current_tile: Tile::make(default_landing()) }
    }

    /// Boot initialization: configure the PMU, bring up the panel, power
    /// the screen at the boot brightness, then the input peripherals.
    /// Failure of any of these writes is fatal at the driver layer — a
    /// working display and PMU are a hard precondition for the device.
    pub fn init(&mut self) -> (r: Vec<Action>)
        requires
            old(self).wf(),
        ensures
            final(self).wf(),
            final(self).hal.pmu == (Pmu {
                screen_power: State::On,
                audio_power: old(self).hal.pmu.audio_power,
                button_latch: false,
                irq_enabled: true,
            }),
            final(self).hal.display.backlight == (Backlight { level: 25, last_on_level: 25 }),
            final(self).hal.display.framebuffer == old(self).hal.display.framebuffer,
            final(self).hal.gesture == old(self).hal.gesture,
            final(self).current_tile == old(self).current_tile,
            r@ == spec_boot_actions(),
    {
        let mut r = self.hal.pmu.init();
        r.push(Action::InitPanel);
        let mut screen = self.hal.pmu.set_screen_power(State::On);
        r.append(&mut screen);
        self.hal.display.set_display_level(25);
        r.push(Action::SetBacklight(25));
        r.push(Action::InitTouch);
        r.push(Action::InitAccel);
        proof {
            assert(r@ =~= spec_boot_actions());
        }
        r
    }

    /// Translate one raw event into at most one semantic event, making
    /// the bounded HAL queries its source calls for: poll result for a
    /// touch, the destructive button-latch read for the PMU. Unknown
    /// sources are dropped; a failed poll yields no event.
    pub fn process_raw_event(&mut self, time_ms: u64, raw: TwatchRawEvent, touch: Option<
        TouchPoint,
    >) -> (r: Option<TwatchEvent>)
        requires
            old(self).wf(),
        ensures
            final(self).wf(),
            r == spec_translate(old(self).hal, time_ms, raw, touch),
            final(self).hal == spec_hal_after_translate(old(self).hal, time_ms, raw, touch),
            final(self).current_tile == old(self).current_tile,
    {
        match raw {
            TwatchRawEvent::Touch => match touch {
                Some(p) => match self.hal.gesture.process(time_ms, p) {
                    Some(te) => Some(TwatchEvent::new(time_ms, Kind::Touch(te))),
                    None => None,
                },
                None => None,
            },
            TwatchRawEvent::Accel => None,
            TwatchRawEvent::Pmu => {
                if self.hal.pmu.is_button_pressed() {
                    Some(TwatchEvent::new(time_ms, Kind::PmuButtonPressed))
                } else {
                    None
                }
            },
            TwatchRawEvent::Rtc => None,
            TwatchRawEvent::Timer => Some(TwatchEvent::new(time_ms, Kind::Timer)),
            TwatchRawEvent::Unknown => None,
        }
    }

    /// One full pipeline step: translate the raw event, enforce the
    /// power-button override, dispatch to the active tile, and apply a
    /// requested tile switch — activating the new tile before it can
    /// receive events, and only after the dispatch call has returned.
    /// A switch triggered by a swipe is followed by the slide
    /// transition; the power transitions change no animation state.
    pub fn process_event(&mut self, time_ms: u64, raw: TwatchRawEvent, touch: Option<
        TouchPoint,
    >) -> (r: Vec<Action>)
        requires
            old(self).wf(),
        ensures
            final(self).wf(),
            *final(self) == spec_after_step(*old(self), time_ms, raw, touch),
            r@ == spec_step_actions(*old(self), time_ms, raw, touch),
    {
        let ev = self.process_raw_event(time_ms, raw, touch);
        match ev {
            None => Vec::new(),
            Some(event) => match event.kind {
                Kind::PmuButtonPressed => {
                    let sleeping = match self.current_tile {
                        Tile::Sleep(_) => true,
                        _ => false,
                    };
                    if sleeping {
                        let mut acts = self.hal.wake_up();
                        let mut rel = self.current_tile.release_actions();
                        acts.append(&mut rel);
                        let mut tile = Tile::make(default_landing());
                        let mut ia = tile.init();
                        acts.append(&mut ia);
                        self.current_tile = tile;
                        acts
                    } else {
                        let mut acts = self.hal.light_sleep();
                        let mut rel = self.current_tile.release_actions();
                        acts.append(&mut rel);
                        let mut tile = Tile::make(TileKind::Sleep);
                        let mut ia = tile.init();
                        acts.append(&mut ia);
                        self.current_tile = tile;
                        acts
                    }
                },
                _ => {
                    let (resp, mut acts) = self.current_tile.process_event(&mut self.hal, event);
                    match resp {
                        Some(e2) => match e2.kind {
                            Kind::NewTile(k) => {
                                let mut rel = self.current_tile.release_actions();
                                acts.append(&mut rel);
                                let mut tile = Tile::make(k);
                                let mut ia = tile.init();
                                acts.append(&mut ia);
                                match event.kind {
                                    Kind::Touch(TouchEvent::Swipe(d, _)) => {
                                        let mut ta = move_to_tile(k, d);
                                        acts.append(&mut ta);
                                    },
                                    _ => {},
                                }
                                self.current_tile = tile;
                                acts
                            },
                            _ => acts,
                        },
                        None => acts,
                    }
                },
            },
        }
    }

    /// Refresh the active tile.
    pub fn run(&mut self) -> (r: Vec<Action>)
        requires
            old(self).wf(),
        ensures
            final(self).wf(),
            final(self).current_tile == old(self).current_tile,
            final(self).hal == old(self).current_tile.spec_run_hal(old(self).hal),
            r@ == old(self).current_tile.spec_run_actions(),
    {
        self.current_tile.run(&mut self.hal)
    }

    /// Feed one round of sensor readings to the active tile's cache (the
    /// driver loop performs this for a requested state refresh).
    pub fn update_active_tile(&mut self, readings: SensorReadings)
        requires
            old(self).wf(),
        ensures
            final(self).wf(),
            final(self).hal == old(self).hal,
            final(self).current_tile == old(self).current_tile.spec_updated(readings),
    {
        self.current_tile.update_state(readings);
    }
}

/// Reading the power-button latch clears it as part of the read: two PMU
/// translations with no intervening press latched between them yield at
/// most one semantic power-button event, however often the interrupt
/// fired for the one press.
pub proof fn lemma_button_press_translates_once(
    h: Hal,
    t1: u64,
    t2: u64,
    touch1: Option<TouchPoint>,
    touch2: Option<TouchPoint>,
)
    ensures
        !(spec_translate(h, t1, TwatchRawEvent::Pmu, touch1).is_some() && spec_translate(
            spec_hal_after_translate(h, t1, TwatchRawEvent::Pmu, touch1),
            t2,
            TwatchRawEvent::Pmu,
            touch2,
        ).is_some()),
{
}

/// Once a step applies a tile-switch request, the new instance — fresh,
/// with its activation run — is the active tile, and the next event,
/// whatever it is apart from the global power-button override, is
/// dispatched to that instance and never to the prior one.
pub proof fn lemma_switch_routes_to_new(
    t: Twatch,
    time1: u64,
    raw1: TwatchRawEvent,
    touch1: Option<TouchPoint>,
    k: TileKind,
    time2: u64,
    raw2: TwatchRawEvent,
    touch2: Option<TouchPoint>,
)
    requires
        spec_step_switch(t, time1, raw1, touch1) == Some(k),
    ensures
        spec_after_step(t, time1, raw1, touch1).current_tile == Tile::spec_make(
            k,
        ).spec_init_tile(),
        spec_after_step(t, time1, raw1, touch1).current_tile.spec_kind() == k,
        spec_dispatch_target(
            spec_after_step(t, time1, raw1, touch1),
            time2,
            raw2,
            touch2,
        ) matches Some(target) ==> target == spec_after_step(
            t,
            time1,
            raw1,
            touch1,
        ).current_tile,
{
}

} // verus!
