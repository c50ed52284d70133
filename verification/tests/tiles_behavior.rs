use twatch::display::Backlight;
use twatch::display::TwatchDisplay;
use twatch::events::Direction;
use twatch::events::Kind;
use twatch::events::SwipeInfo;
use twatch::events::TouchEvent;
use twatch::events::TouchPoint;
use twatch::events::TwatchEvent;
use twatch::tiles::ferris::FerrisTile;
use twatch::tiles::light::LightTile;
use twatch::tiles::motor::MotorTile;
use twatch::tiles::sleep::SleepTile;
use twatch::tiles::time::TimeTile;
use twatch::tiles::Action;
use twatch::tiles::Tile;
use twatch::tiles::TileKind;
use twatch::twatch::Hal;

fn swipe_event(dir: Direction) -> TwatchEvent {
    TwatchEvent::new(
        1000,
        Kind::Touch(TouchEvent::Swipe(dir, SwipeInfo { distance: 100, duration_ms: 100 })),
    )
}

fn touch_event(x: u16, y: u16) -> TwatchEvent {
    TwatchEvent::new(1000, Kind::Touch(TouchEvent::TouchOnePoint(TouchPoint { x, y })))
}

#[test]
fn light_buttons_step_the_backlight() {
    let mut tile = LightTile::default();
    let mut d = TwatchDisplay::new(Backlight::new());
    d.set_display_level(50);

    // Left half raises by 15.
    let (resp, acts) = tile.process_event(&mut d, touch_event(60, 120));
    assert_eq!(resp, None);
    assert_eq!(d.get_display_level(), 65);
    assert_eq!(
        acts,
        vec![
            Action::SetBacklight(65),
            Action::RenderTile(TileKind::Light),
            Action::CommitFull,
        ]
    );

    // Right half lowers by 15.
    let (_, _) = tile.process_event(&mut d, touch_event(200, 120));
    assert_eq!(d.get_display_level(), 50);
}

#[test]
fn light_level_is_clamped_between_10_and_100() {
    let mut tile = LightTile::default();
    let mut d = TwatchDisplay::new(Backlight::new());
    d.set_display_level(95);
    tile.process_event(&mut d, touch_event(60, 120));
    assert_eq!(d.get_display_level(), 100);
    tile.process_event(&mut d, touch_event(60, 120));
    assert_eq!(d.get_display_level(), 100);

    d.set_display_level(20);
    tile.process_event(&mut d, touch_event(200, 120));
    assert_eq!(d.get_display_level(), 10);
    tile.process_event(&mut d, touch_event(200, 120));
    assert_eq!(d.get_display_level(), 10);
}

#[test]
fn light_touch_outside_buttons_is_declined() {
    let mut tile = LightTile::default();
    let mut d = TwatchDisplay::new(Backlight::new());
    let ev = touch_event(60, 30);
    let (resp, acts) = tile.process_event(&mut d, ev);
    assert_eq!(resp, Some(ev));
    assert_eq!(acts, Vec::new());
    assert_eq!(d.get_display_level(), 100);
}

#[test]
fn motor_button_pulses_the_motor() {
    let mut tile = MotorTile::default();
    let (resp, acts) = tile.process_event(touch_event(120, 120));
    assert_eq!(resp, None);
    assert_eq!(
        acts,
        vec![Action::VibrateOn, Action::DelayMs(200), Action::VibrateOff]
    );
    let ev = touch_event(120, 30);
    let (resp, acts) = tile.process_event(ev);
    assert_eq!(resp, Some(ev));
    assert_eq!(acts, Vec::new());
}

#[test]
fn ferris_swipes_to_time_and_hello() {
    let mut tile = FerrisTile::default();
    let (resp, _) = tile.process_event(swipe_event(Direction::Left));
    assert_eq!(resp.unwrap().kind, Kind::NewTile(TileKind::Time));
    let (resp, _) = tile.process_event(swipe_event(Direction::Right));
    assert_eq!(resp.unwrap().kind, Kind::NewTile(TileKind::Hello));
    let (resp, _) = tile.process_event(swipe_event(Direction::Up));
    assert_eq!(resp, None);
}

#[test]
fn sleep_tile_declines_everything() {
    let mut tile = SleepTile::default();
    let ev = swipe_event(Direction::Left);
    let (resp, acts) = tile.process_event(ev);
    assert_eq!(resp, Some(ev));
    assert_eq!(acts, Vec::new());
    let ev = TwatchEvent::new(2000, Kind::Timer);
    let (resp, _) = tile.process_event(ev);
    assert_eq!(resp, Some(ev));
}

#[test]
fn sleep_run_keeps_rails_down() {
    let mut tile = SleepTile::default();
    let mut hal = Hal::new();
    hal.display.set_display_level(40);
    let acts = tile.run(&mut hal);
    assert_eq!(hal.display.get_display_level(), 0);
    assert_eq!(acts[0], Action::SetBacklight(0));
}

#[test]
fn time_tile_flashes_label_for_consumed_swipes() {
    let mut tile = TimeTile::default();
    let (resp, acts) = tile.process_event(swipe_event(Direction::Up));
    assert_eq!(resp, None);
    assert_eq!(
        acts,
        vec![
            Action::RefreshTileState,
            Action::RenderSwipe(Direction::Up),
            Action::RenderTile(TileKind::Time),
            Action::CommitFull,
            Action::DelayMs(300),
            Action::RenderTile(TileKind::Time),
            Action::CommitFull,
        ]
    );
}

#[test]
fn time_tile_init_arms_the_periodic_tick() {
    let mut tile = TimeTile::default();
    assert!(!tile.timer_armed);
    let acts = tile.init();
    assert!(tile.timer_armed);
    assert_eq!(acts, vec![Action::ArmPeriodicTimer]);
}

#[test]
fn make_builds_a_fresh_instance_of_each_kind() {
    for k in [
        TileKind::Ferris,
        TileKind::Hello,
        TileKind::Light,
        TileKind::Motor,
        TileKind::Sleep,
        TileKind::Time,
    ] {
        let t = Tile::make(k);
        assert_eq!(t.kind(), k);
    }
}
