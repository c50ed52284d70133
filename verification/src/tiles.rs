//! Tiles: the UI screens, the closed set of variants the state machine
//! switches between, and the slide-transition planner.
//!
//! Tile logic is pure: a tile decides, the driver layer acts. Every device
//! effect a tile or the state machine wants is returned as an [`Action`]
//! for the driver loop to perform in order.

pub mod ferris;
pub mod hello;
pub mod light;
pub mod motor;
pub mod sleep;
pub mod time;

use vstd::prelude::*;

use crate::display::Point;
use crate::display::Rectangle;
use crate::display::Size;
use crate::display::FRAME_WIDTH;
use crate::events::Direction;
use crate::events::TwatchEvent;
use crate::pmu::Power;
use crate::pmu::State;
use crate::tiles::ferris::spec_ferris_response;
use crate::tiles::ferris::FerrisTile;
use crate::tiles::hello::spec_hello_response;
use crate::tiles::hello::HelloTile;
use crate::tiles::light::spec_light_actions;
use crate::tiles::light::spec_light_display_after;
use crate::tiles::light::spec_light_response;
use crate::tiles::light::LightTile;
use crate::tiles::motor::spec_motor_actions;
use crate::tiles::motor::spec_motor_response;
use crate::tiles::motor::MotorTile;
use crate::tiles::sleep::SleepTile;
use crate::tiles::time::spec_default_time_tile;
use crate::tiles::time::spec_time_actions;
use crate::tiles::time::spec_time_response;
use crate::tiles::time::spec_time_tile_updated;
use crate::tiles::time::SensorReadings;
use crate::tiles::time::TimeTile;
use crate::twatch::spec_hal_after_light_sleep;
use crate::twatch::spec_light_sleep_actions;
use crate::twatch::Hal;

verus! {

/// The closed set of screens. Exactly one is active at any instant; a
/// `Kind::NewTile` request names the one to switch to.
#[derive(Clone, Copy, Debug, PartialEq, Eq, Structural)]
pub enum TileKind {
    Ferris,
    Hello,
    Light,
    Motor,
    Sleep,
    Time,
}

/// One device effect for the driver loop. Rendering and commit actions
/// call back into the verified compositor; the rest drive peripherals.
#[derive(Clone, Copy, Debug, PartialEq, Eq, Structural)]
pub enum Action {
    /// Reset the framebuffer to the background color.
    ClearFrame,
    /// Read the sensors and feed the readings to the active tile's cache.
    RefreshTileState,
    /// Draw the named tile's content into the framebuffer.
    RenderTile(TileKind),
    /// Draw the swipe-direction label into the framebuffer.
    RenderSwipe(Direction),
    /// Full commit: flush the whole buffer to the panel, then clear it.
    CommitFull,
    /// Partial commit: flush only the given rectangle.
    CommitPartial(Rectangle),
    /// Pause between transition steps.
    DelayMs(u64),
    /// Drive the backlight PWM at this percent level.
    SetBacklight(u32),
    /// Switch one PMU power output.
    SetRailPower(Power, State),
    /// Enable the power-button short-press interrupt.
    EnableButtonIrq,
    /// Clear the PMU's pending interrupt latch.
    ClearButtonIrq,
    /// Switch the vibration motor on.
    VibrateOn,
    /// Switch the vibration motor off.
    VibrateOff,
    /// Arm the 1 Hz periodic tick for the active tile.
    ArmPeriodicTimer,
    /// Release the periodic tick.
    DisarmPeriodicTimer,
    /// Arm the power-button pin as an external wake source.
    EnableButtonWake,
    /// Halt in deep sleep; recoverable only through hardware wake.
    EnterDeepSleep,
    /// Run the panel's initialization command sequence.
    InitPanel,
    /// Initialize the touch controller.
    InitTouch,
    /// Initialize and configure the accelerometer.
    InitAccel,
}

/// The active screen: one of the closed set of variants, with its state.
#[derive(Clone, Copy, Debug, PartialEq, Eq, Structural)]
pub enum Tile {
    Ferris(FerrisTile),
    Hello(HelloTile),
    Light(LightTile),
    Motor(MotorTile),
    Sleep(SleepTile),
    Time(TimeTile),
}

impl Tile {
    /// Which screen this is.
    pub open spec fn spec_kind(self) -> TileKind {
        match self {
            Tile::Ferris(_) => TileKind::Ferris,
            Tile::Hello(_) => TileKind::Hello,
            Tile::Light(_) => TileKind::Light,
            Tile::Motor(_) => TileKind::Motor,
            Tile::Sleep(_) => TileKind::Sleep,
            Tile::Time(_) => TileKind::Time,
        }
    }

    /// Which screen this is.
    pub fn kind(&self) -> (r: TileKind)
        ensures
            r == self.spec_kind(),
    {
        match self {
            Tile::Ferris(_) => TileKind::Ferris,
            Tile::Hello(_) => TileKind::Hello,
            Tile::Light(_) => TileKind::Light,
            Tile::Motor(_) => TileKind::Motor,
            Tile::Sleep(_) => TileKind::Sleep,
            Tile::Time(_) => TileKind::Time,
        }
    }

    /// A fresh, not-yet-activated instance of the given screen.
    pub open spec fn spec_make(k: TileKind) -> Tile {
        match k {
            TileKind::Ferris => Tile::Ferris(FerrisTile {  }),
            TileKind::Hello => Tile::Hello(HelloTile {  }),
            TileKind::Light => Tile::Light(LightTile {  }),
            TileKind::Motor => Tile::Motor(MotorTile {  }),
            TileKind::Sleep => Tile::Sleep(SleepTile {  }),
            TileKind::Time => Tile::Time(spec_default_time_tile()),
        }
    }

    /// A fresh, not-yet-activated instance of the given screen.
    pub fn make(k: TileKind) -> (r: Tile)
        ensures
            r == Tile::spec_make(k),
            r.spec_kind() == k,
    {
        match k {
            TileKind::Ferris => Tile::Ferris(FerrisTile::default()),
            TileKind::Hello => Tile::Hello(HelloTile::default()),
            TileKind::Light => Tile::Light(LightTile::default()),
            TileKind::Motor => Tile::Motor(MotorTile::default()),
            TileKind::Sleep => Tile::Sleep(SleepTile::default()),
            TileKind::Time => Tile::Time(TimeTile::default()),
        }
    }

    /// Activation is complete: whatever the tile's activation arms (for
    /// the watch face, its periodic tick) is armed. A tile is never
    /// dispatched an event before this holds.
    pub open spec fn spec_ready(self) -> bool {
        match self {
            Tile::Time(t) => t.timer_armed,
            _ => true,
        }
    }

    /// The tile after its activation ran.
    pub open spec fn spec_init_tile(self) -> Tile {
        match self {
            Tile::Time(t) => Tile::Time(TimeTile { timer_armed: true, ..t }),
            _ => self,
        }
    }

    /// The device work activation requests.
    pub open spec fn spec_init_actions(self) -> Seq<Action> {
        match self {
            Tile::Ferris(_) => seq![Action::RenderTile(TileKind::Ferris), Action::CommitFull],
            Tile::Hello(_) => seq![Action::RenderTile(TileKind::Hello), Action::CommitFull],
            Tile::Light(_) => Seq::empty(),
            Tile::Motor(_) => Seq::empty(),
            Tile::Sleep(_) => Seq::empty(),
            Tile::Time(_) => seq![Action::ArmPeriodicTimer],
        }
    }

    /// Run the tile's activation once, before any event is dispatched
    /// to it.
    pub fn init(&mut self) -> (r: Vec<Action>)
        ensures
            *final(self) == old(self).spec_init_tile(),
            final(self).spec_ready(),
            final(self).spec_kind() == old(self).spec_kind(),
            r@ == old(self).spec_init_actions(),
    {
        match self {
            Tile::Ferris(t) => t.init(),
            Tile::Hello(t) => t.init(),
            Tile::Light(_) => Vec::new(),
            Tile::Motor(_) => Vec::new(),
            Tile::Sleep(_) => Vec::new(),
            Tile::Time(t) => t.init(),
        }
    }

    /// HAL state after one refresh of this tile (the sleep tile keeps
    /// the rails down; the others leave the HAL alone).
    pub open spec fn spec_run_hal(self, h: Hal) -> Hal {
        match self {
            Tile::Sleep(_) => spec_hal_after_light_sleep(h),
            _ => h,
        }
    }

    /// The device work one refresh of this tile requests.
    pub open spec fn spec_run_actions(self) -> Seq<Action> {
        match self {
            Tile::Ferris(_) => seq![Action::RenderTile(TileKind::Ferris), Action::CommitFull],
            Tile::Hello(_) => seq![Action::RenderTile(TileKind::Hello), Action::CommitFull],
            Tile::Light(_) => seq![Action::RenderTile(TileKind::Light), Action::CommitFull],
            Tile::Motor(_) => seq![Action::RenderTile(TileKind::Motor), Action::CommitFull],
            Tile::Sleep(_) => spec_light_sleep_actions(),
            Tile::Time(_) => seq![
                Action::RefreshTileState,
                Action::RenderTile(TileKind::Time),
                Action::CommitFull,
            ],
        }
    }

    /// Refresh the active tile.
    pub fn run(&mut self, hal: &mut Hal) -> (r: Vec<Action>)
        requires
            old(hal).wf(),
        ensures
            *final(self) == *old(self),
            final(hal).wf(),
            *final(hal) == old(self).spec_run_hal(*old(hal)),
            r@ == old(self).spec_run_actions(),
    {
        match self {
            Tile::Ferris(t) => t.run(),
            Tile::Hello(t) => t.run(),
            Tile::Light(t) => t.run(),
            Tile::Motor(t) => t.run(),
            Tile::Sleep(t) => t.run(hal),
            Tile::Time(t) => t.run(),
        }
    }

    /// The tile's answer to a dispatched event: `None` for an event it
    /// fully handled, `Some` of the unchanged event for one it declines,
    /// `Some` of a `NewTile` request for a swipe that switches screens.
    pub open spec fn spec_response(self, event: TwatchEvent) -> Option<TwatchEvent> {
        match self {
            Tile::Ferris(_) => spec_ferris_response(event),
            Tile::Hello(_) => spec_hello_response(event),
            Tile::Light(_) => spec_light_response(event),
            Tile::Motor(_) => spec_motor_response(event),
            Tile::Sleep(_) => Some(event),
            Tile::Time(_) => spec_time_response(event),
        }
    }

    /// HAL state after the tile handles an event (only the light tile
    /// touches it, moving the backlight level).
    pub open spec fn spec_event_hal(self, h: Hal, event: TwatchEvent) -> Hal {
        match self {
            Tile::Light(_) => Hal { display: spec_light_display_after(h.display, event), ..h },
            _ => h,
        }
    }

    /// The device work the tile requests for an event.
    pub open spec fn spec_event_actions(self, h: Hal, event: TwatchEvent) -> Seq<Action> {
        match self {
            Tile::Light(_) => spec_light_actions(h.display.backlight.level, event),
            Tile::Motor(_) => spec_motor_actions(event),
            Tile::Time(_) => spec_time_actions(event),
            _ => Seq::empty(),
        }
    }

    /// Dispatch one event to the active tile.
    pub fn process_event(&mut self, hal: &mut Hal, event: TwatchEvent) -> (r: (
        Option<TwatchEvent>,
        Vec<Action>,
    ))
        requires
            old(hal).wf(),
        ensures
            *final(self) == *old(self),
            final(hal).wf(),
            *final(hal) == old(self).spec_event_hal(*old(hal), event),
            r.0 == old(self).spec_response(event),
            r.1@ == old(self).spec_event_actions(*old(hal), event),
    {
        match self {
            Tile::Ferris(t) => t.process_event(event),
            Tile::Hello(t) => t.process_event(event),
            Tile::Light(t) => t.process_event(&mut hal.display, event),
            Tile::Motor(t) => t.process_event(event),
            Tile::Sleep(t) => t.process_event(event),
            Tile::Time(t) => t.process_event(event),
        }
    }

    /// The resources to release when this tile is replaced: a tile is
    /// destroyed on replacement and must give up what it owns (the watch
    /// face owns the periodic tick).
    pub open spec fn spec_release_actions(self) -> Seq<Action> {
        match self {
            Tile::Time(t) => if t.timer_armed {
                seq![Action::DisarmPeriodicTimer]
            } else {
                Seq::empty()
            },
            _ => Seq::empty(),
        }
    }

    /// Release what the tile holds; performed when it is replaced.
    pub fn release_actions(&self) -> (r: Vec<Action>)
        ensures
            r@ == self.spec_release_actions(),
    {
        match self {
            Tile::Time(t) => {
                if t.timer_armed {
                    let mut r: Vec<Action> = Vec::new();
                    r.push(Action::DisarmPeriodicTimer);
                    proof {
                        assert(r@ =~= self.spec_release_actions());
                    }
                    r
                } else {
                    Vec::new()
                }
            },
            _ => Vec::new(),
        }
    }

    /// The tile after taking one round of sensor readings (only the
    /// watch face caches readings).
    pub open spec fn spec_updated(self, readings: SensorReadings) -> Tile {
        match self {
            Tile::Time(t) => Tile::Time(spec_time_tile_updated(t, readings)),
            _ => self,
        }
    }

    /// Feed one round of sensor readings to the active tile's cache.
    pub fn update_state(&mut self, readings: SensorReadings)
        ensures
            *final(self) == old(self).spec_updated(readings),
    {
        match self {
            Tile::Time(t) => t.update_state(readings),
            _ => {},
        }
    }
}

/// Steps of the slide transition; each reveals one more strip.
pub const TRANSITION_STEPS: u32 = 4;

/// Strip revealed per step, in pixels: the screen dimension divided by
/// the step count.
pub const TRANSITION_STRIP: u32 = 60;

/// Pause between transition steps, in milliseconds.
pub const TRANSITION_STEP_DELAY_MS: u64 = 20;

/// The dirty rectangle committed at the given transition step: a strip
/// one step wide, advancing toward the travel direction's origin edge so
/// the incoming tile appears to slide in from it.
pub open spec fn spec_transition_rect(dir: Direction, step: int) -> Rectangle {
    match dir {
        Direction::Left => Rectangle {
            top_left: Point { x: (240 - 60 - 60 * step) as i32, y: 0 },
            size: Size { width: 60, height: 240 },
        },
        Direction::Right => Rectangle {
            top_left: Point { x: (60 * step) as i32, y: 0 },
            size: Size { width: 60, height: 240 },
        },
        Direction::Up => Rectangle {
            top_left: Point { x: 0, y: (60 * step) as i32 },
            size: Size { width: 240, height: 60 },
        },
        Direction::Down => Rectangle {
            top_left: Point { x: 0, y: (240 - 60 - 60 * step) as i32 },
            size: Size { width: 240, height: 60 },
        },
    }
}

/// The dirty rectangle committed at the given transition step.
pub fn transition_rect(dir: Direction, step: u32) -> (r: Rectangle)
    requires
        step < TRANSITION_STEPS,
    ensures
        r == spec_transition_rect(dir, step as int),
        r.spec_valid(),
{
    match dir {
        Direction::Left => Rectangle {
            top_left: Point { x: (240 - 60 - 60 * step) as i32, y: 0 },
            size: Size { width: 60, height: 240 },
        },
        Direction::Right => Rectangle {
            top_left: Point { x: (60 * step) as i32, y: 0 },
            size: Size { width: 60, height: 240 },
        },
        Direction::Up => Rectangle {
            top_left: Point { x: 0, y: (60 * step) as i32 },
            size: Size { width: 240, height: 60 },
        },
        Direction::Down => Rectangle {
            top_left: Point { x: 0, y: (240 - 60 - 60 * step) as i32 },
            size: Size { width: 240, height: 60 },
        },
    }
}

/// The commit-and-pause pairs of a slide transition, in step order.
pub open spec fn spec_transition_commits(dir: Direction) -> Seq<Action> {
    Seq::new(
        (2 * TRANSITION_STEPS) as nat,
        |i: int|
            if i % 2 == 0 {
                Action::CommitPartial(spec_transition_rect(dir, i / 2))
            } else {
                Action::DelayMs(TRANSITION_STEP_DELAY_MS)
            },
    )
}

/// The full plan of a slide transition to tile `to`: paint the incoming
/// tile on a cleared frame, then commit one advancing strip per step
/// with a fixed pause between steps.
pub open spec fn spec_move_to_tile_actions(to: TileKind, dir: Direction) -> Seq<Action> {
    seq![Action::ClearFrame, Action::RefreshTileState, Action::RenderTile(to)]
        + spec_transition_commits(dir)
}

/// Plan the slide transition to tile `to` in direction `dir`.
pub fn move_to_tile(to: TileKind, dir: Direction) -> (r: Vec<Action>)
    ensures
        r@ == spec_move_to_tile_actions(to, dir),
{
    let ghost prefix = seq![
        Action::ClearFrame,
        Action::RefreshTileState,
        Action::RenderTile(to),
    ];
    let ghost commits = spec_transition_commits(dir);
    let mut r: Vec<Action> = Vec::new();
    r.push(Action::ClearFrame);
    r.push(Action::RefreshTileState);
    r.push(Action::RenderTile(to));
    proof {
        assert(r@ =~= prefix + commits.subrange(0, 0));
    }
    let mut i: u32 = 0;
    while i < TRANSITION_STEPS
        invariant
            i <= TRANSITION_STEPS,
            prefix == seq![Action::ClearFrame, Action::RefreshTileState, Action::RenderTile(to)],
            commits == spec_transition_commits(dir),
            r@ == prefix + commits.subrange(0, 2 * i as int),
        decreases TRANSITION_STEPS - i,
    {
        let rect = transition_rect(dir, i);
        proof {
            let k = 2 * (i as int);
            vstd::arithmetic::div_mod::lemma_fundamental_div_mod_converse(k, 2, i as int, 0);
            vstd::arithmetic::div_mod::lemma_fundamental_div_mod_converse(k + 1, 2, i as int, 1);
            assert(commits[k] == Action::CommitPartial(rect));
            assert(commits[k + 1] == Action::DelayMs(TRANSITION_STEP_DELAY_MS));
            assert(commits.subrange(0, k + 2) =~= commits.subrange(0, k).push(commits[k]).push(
                commits[k + 1],
            ));
        }
        r.push(Action::CommitPartial(rect));
        r.push(Action::DelayMs(TRANSITION_STEP_DELAY_MS));
        i = i + 1;
    }
    proof {
        assert(commits.subrange(0, 2 * TRANSITION_STEPS as int) =~= commits);
        assert(r@ =~= spec_move_to_tile_actions(to, dir));
    }
    r
}

/// The travel-axis offset of the strip committed at a step: its x for a
/// horizontal slide, its y for a vertical one.
pub open spec fn spec_axis_offset(dir: Direction, i: int) -> int {
    match dir {
        Direction::Left => spec_transition_rect(dir, i).top_left.x as int,
        Direction::Right => spec_transition_rect(dir, i).top_left.x as int,
        Direction::Up => spec_transition_rect(dir, i).top_left.y as int,
        Direction::Down => spec_transition_rect(dir, i).top_left.y as int,
    }
}

/// The constant per-step advance of the strip along the travel axis.
pub open spec fn spec_axis_step(dir: Direction) -> int {
    match dir {
        Direction::Right => TRANSITION_STRIP as int,
        Direction::Up => TRANSITION_STRIP as int,
        Direction::Left => -(TRANSITION_STRIP as int),
        Direction::Down => -(TRANSITION_STRIP as int),
    }
}

/// Whether the strip committed at step `i` covers travel-axis position
/// `pos`.
pub open spec fn spec_strip_covers(dir: Direction, i: int, pos: int) -> bool {
    spec_axis_offset(dir, i) <= pos < spec_axis_offset(dir, i) + TRANSITION_STRIP
}

/// Whether some step of the transition commits travel-axis position
/// `pos`.
pub open spec fn spec_covered(dir: Direction, pos: int) -> bool {
    exists|i: int| 0 <= i < TRANSITION_STEPS && #[trigger] spec_strip_covers(dir, i, pos)
}

/// The slide transition's offsets advance monotonically by one constant
/// strip per step, the per-step increments sum to exactly the screen
/// dimension in the travel direction (steps times strip equals the full
/// width), every strip lies on the panel, and together the strips cover
/// every pixel column (or row) once: after the final step the incoming
/// tile stands at offset zero and the outgoing tile is fully off-canvas.
pub proof fn lemma_transition_covers_screen(dir: Direction)
    ensures
        TRANSITION_STEPS * TRANSITION_STRIP == FRAME_WIDTH,
        forall|i: int|
            0 <= i < TRANSITION_STEPS ==> (#[trigger] spec_transition_rect(dir, i)).spec_valid(),
        forall|i: int|
            0 <= i < TRANSITION_STEPS - 1 ==> #[trigger] spec_axis_offset(dir, i + 1)
                - spec_axis_offset(dir, i) == spec_axis_step(dir),
        forall|pos: int| 0 <= pos < FRAME_WIDTH ==> #[trigger] spec_covered(dir, pos),
{
    assert forall|pos: int| 0 <= pos < FRAME_WIDTH implies #[trigger] spec_covered(dir, pos) by {
        let j: int = if pos < 60 {
            0
        } else if pos < 120 {
            1
        } else if pos < 180 {
            2
        } else {
            3
        };
        let w: int = match dir {
            Direction::Right => j,
            Direction::Up => j,
            Direction::Left => 3 - j,
            Direction::Down => 3 - j,
        };
        assert(0 <= w < TRANSITION_STEPS && spec_strip_covers(dir, w, pos));
    }
}

} // verus!
