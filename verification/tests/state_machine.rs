use twatch::display::Point;
use twatch::display::Rectangle;
use twatch::display::Size;
use twatch::events::Direction;
use twatch::events::TouchPoint;
use twatch::events::TwatchRawEvent;
use twatch::pmu::Power;
use twatch::pmu::State;
use twatch::tiles::move_to_tile;
use twatch::tiles::time::AccelFrame;
use twatch::tiles::time::DateTime;
use twatch::tiles::time::SensorReadings;
use twatch::tiles::transition_rect;
use twatch::tiles::Action;
use twatch::tiles::Tile;
use twatch::tiles::TileKind;
use twatch::twatch::Twatch;

/// Feed the two touch samples of a swipe; returns the actions of the
/// completing sample's step.
fn swipe(t: &mut Twatch, time: u64, from: (u16, u16), to: (u16, u16)) -> Vec<Action> {
    let first = t.process_event(
        time,
        TwatchRawEvent::Touch,
        Some(TouchPoint { x: from.0, y: from.1 }),
    );
    assert_eq!(first, Vec::new());
    t.process_event(
        time + 100,
        TwatchRawEvent::Touch,
        Some(TouchPoint { x: to.0, y: to.1 }),
    )
}

#[test]
fn boot_lands_on_hello() {
    let mut t = Twatch::new();
    assert_eq!(t.current_tile.kind(), TileKind::Hello);
    let acts = t.init();
    assert_eq!(t.hal.display.get_display_level(), 25);
    assert_eq!(t.hal.pmu.screen_power, State::On);
    assert!(acts.contains(&Action::SetBacklight(25)));
    assert!(acts.contains(&Action::InitPanel));
}

#[test]
fn swipe_left_on_hello_switches_to_time_with_slide() {
    let mut t = Twatch::new();
    t.init();
    let acts = swipe(&mut t, 1000, (200, 120), (80, 120));
    // The state machine activated the time tile, then ran the slide.
    assert_eq!(t.current_tile.kind(), TileKind::Time);
    match t.current_tile {
        Tile::Time(tile) => assert!(tile.timer_armed),
        _ => panic!("expected the time tile"),
    }
    assert_eq!(acts[0], Action::ArmPeriodicTimer);
    assert_eq!(acts[1], Action::ClearFrame);
    assert_eq!(acts[2], Action::RefreshTileState);
    assert_eq!(acts[3], Action::RenderTile(TileKind::Time));
    // Four advancing strips with a pause after each.
    let commits: Vec<&Action> = acts
        .iter()
        .filter(|a| matches!(a, Action::CommitPartial(_)))
        .collect();
    assert_eq!(commits.len(), 4);
    for (i, a) in commits.iter().enumerate() {
        match a {
            Action::CommitPartial(r) => {
                assert_eq!(r.top_left.x, 180 - 60 * i as i32);
                assert_eq!(r.size, Size { width: 60, height: 240 });
            }
            _ => unreachable!(),
        }
    }
}

#[test]
fn transition_offsets_sum_to_screen_dimension() {
    for dir in [Direction::Up, Direction::Down, Direction::Left, Direction::Right] {
        let mut total = 0u32;
        let mut offsets = Vec::new();
        for step in 0..4 {
            let r = transition_rect(dir, step);
            let (offset, extent) = match dir {
                Direction::Left | Direction::Right => (r.top_left.x, r.size.width),
                Direction::Up | Direction::Down => (r.top_left.y, r.size.height),
            };
            offsets.push(offset);
            total += extent;
        }
        // The per-step increments are one constant strip.
        for w in offsets.windows(2) {
            assert_eq!((w[1] - w[0]).abs(), 60);
        }
        // Summed extents cover exactly the screen dimension.
        assert_eq!(total, 240);
        // The final step reaches the origin edge for a slide that ends
        // with the incoming tile at offset zero.
        match dir {
            Direction::Left | Direction::Down => assert_eq!(*offsets.last().unwrap(), 0),
            Direction::Right | Direction::Up => assert_eq!(*offsets.last().unwrap(), 180),
        }
    }
}

#[test]
fn move_to_tile_plans_paint_then_strips() {
    let acts = move_to_tile(TileKind::Hello, Direction::Right);
    assert_eq!(acts.len(), 3 + 8);
    assert_eq!(acts[0], Action::ClearFrame);
    assert_eq!(acts[1], Action::RefreshTileState);
    assert_eq!(acts[2], Action::RenderTile(TileKind::Hello));
    assert_eq!(
        acts[3],
        Action::CommitPartial(Rectangle {
            top_left: Point { x: 0, y: 0 },
            size: Size { width: 60, height: 240 },
        })
    );
    assert_eq!(acts[4], Action::DelayMs(20));
}

#[test]
fn tile_ring_walk() {
    let mut t = Twatch::new();
    t.init();
    // Hello -> (swipe right) -> Light -> (swipe right) -> Motor
    // (swipes above the tiles' button bands, which span y 80..=170)
    swipe(&mut t, 1000, (60, 30), (200, 30));
    assert_eq!(t.current_tile.kind(), TileKind::Light);
    swipe(&mut t, 3000, (60, 30), (200, 30));
    assert_eq!(t.current_tile.kind(), TileKind::Motor);
    // Motor -> (swipe left) -> Light -> (swipe left) -> Hello
    swipe(&mut t, 5000, (200, 30), (60, 30));
    assert_eq!(t.current_tile.kind(), TileKind::Light);
    swipe(&mut t, 7000, (200, 30), (60, 30));
    assert_eq!(t.current_tile.kind(), TileKind::Hello);
}

#[test]
fn events_route_to_the_new_tile_after_a_switch() {
    let mut t = Twatch::new();
    t.init();
    swipe(&mut t, 1000, (200, 120), (80, 120));
    assert_eq!(t.current_tile.kind(), TileKind::Time);
    // A timer tick is now the time tile's to consume: it requests a
    // refresh, which only the time tile does.
    let acts = t.process_event(5000, TwatchRawEvent::Timer, None);
    assert_eq!(
        acts,
        vec![
            Action::RefreshTileState,
            Action::RenderTile(TileKind::Time),
            Action::CommitFull,
        ]
    );
    assert_eq!(t.current_tile.kind(), TileKind::Time);
}

#[test]
fn power_button_round_trip_through_sleep() {
    let mut t = Twatch::new();
    t.init();
    swipe(&mut t, 1000, (200, 120), (80, 120));
    assert_eq!(t.current_tile.kind(), TileKind::Time);

    // Power button: backlight off, screen and audio rails off, sleep tile.
    t.hal.pmu.latch_button_press();
    let acts = t.process_event(2000, TwatchRawEvent::Pmu, None);
    assert_eq!(t.current_tile.kind(), TileKind::Sleep);
    assert_eq!(t.hal.display.get_display_level(), 0);
    assert_eq!(t.hal.pmu.screen_power, State::Off);
    assert_eq!(t.hal.pmu.audio_power, State::Off);
    assert_eq!(
        acts,
        vec![
            Action::SetBacklight(0),
            Action::SetRailPower(Power::Ldo2, State::Off),
            Action::SetRailPower(Power::Ldo3, State::Off),
            // The replaced watch face releases its periodic tick.
            Action::DisarmPeriodicTimer,
        ]
    );

    // Second press while asleep: backlight restored to the last level
    // (25), back on the default landing tile.
    t.hal.pmu.latch_button_press();
    let acts = t.process_event(3000, TwatchRawEvent::Pmu, None);
    assert_eq!(t.current_tile.kind(), TileKind::Hello);
    assert_eq!(t.hal.display.get_display_level(), 25);
    assert_eq!(t.hal.pmu.screen_power, State::On);
    assert_eq!(
        acts,
        vec![
            Action::SetBacklight(25),
            Action::SetRailPower(Power::Ldo2, State::On),
            Action::RenderTile(TileKind::Hello),
            Action::CommitFull,
        ]
    );
}

#[test]
fn one_press_yields_one_semantic_event() {
    let mut t = Twatch::new();
    t.init();
    // The interrupt fired several times for one press: the latch was set
    // once, the raw event may arrive repeatedly.
    t.hal.pmu.latch_button_press();
    let first = t.process_raw_event(1000, TwatchRawEvent::Pmu, None);
    assert!(first.is_some());
    // Read-and-cleared: the duplicate raw event yields nothing.
    let second = t.process_raw_event(1001, TwatchRawEvent::Pmu, None);
    assert_eq!(second, None);
    assert_eq!(t.current_tile.kind(), TileKind::Hello);
}

#[test]
fn sensor_error_keeps_cached_battery_value() {
    let mut t = Twatch::new();
    t.init();
    swipe(&mut t, 1000, (200, 120), (80, 120));
    assert_eq!(t.current_tile.kind(), TileKind::Time);

    // A good round of readings fills the cache.
    t.update_active_tile(SensorReadings {
        battery: Some(67),
        time: Some(DateTime {
            year: 24,
            month: 6,
            weekday: 2,
            day: 11,
            hours: 9,
            minutes: 30,
            seconds: 0,
        }),
        accel: Some(AccelFrame { x_mg: 10, y_mg: -20, z_mg: 980 }),
    });
    // One tick later the battery read fails: the displayed value stays
    // the previously cached one, the rest still updates.
    t.update_active_tile(SensorReadings {
        battery: None,
        time: Some(DateTime {
            year: 24,
            month: 6,
            weekday: 2,
            day: 11,
            hours: 9,
            minutes: 30,
            seconds: 1,
        }),
        accel: None,
    });
    match t.current_tile {
        Tile::Time(tile) => {
            assert_eq!(tile.battery_level, 67);
            assert_eq!(tile.time.seconds, 1);
            assert_eq!(tile.accel.z_mg, 980);
        }
        _ => panic!("expected the time tile"),
    }
}

#[test]
fn unknown_and_observational_sources_yield_nothing() {
    let mut t = Twatch::new();
    t.init();
    assert_eq!(t.process_event(1000, TwatchRawEvent::Unknown, None), Vec::new());
    assert_eq!(t.process_event(1001, TwatchRawEvent::Accel, None), Vec::new());
    assert_eq!(t.process_event(1002, TwatchRawEvent::Rtc, None), Vec::new());
    assert_eq!(t.current_tile.kind(), TileKind::Hello);
}

#[test]
fn run_refreshes_the_active_tile() {
    let mut t = Twatch::new();
    t.init();
    let acts = t.run();
    assert_eq!(
        acts,
        vec![Action::RenderTile(TileKind::Hello), Action::CommitFull]
    );
}
