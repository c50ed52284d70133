use twatch::events::Direction;
use twatch::events::TouchEvent;
use twatch::events::TouchPoint;
use twatch::gesture::GestureClassifier;

#[test]
fn first_sample_is_a_single_point_touch() {
    let mut g = GestureClassifier::new();
    let r = g.process(1000, TouchPoint { x: 120, y: 120 });
    assert_eq!(r, Some(TouchEvent::TouchOnePoint(TouchPoint { x: 120, y: 120 })));
}

#[test]
fn leftward_displacement_classifies_as_left_swipe() {
    let mut g = GestureClassifier::new();
    g.process(1000, TouchPoint { x: 200, y: 120 });
    let r = g.process(1100, TouchPoint { x: 100, y: 125 });
    match r {
        Some(TouchEvent::Swipe(dir, info)) => {
            assert_eq!(dir, Direction::Left);
            assert_eq!(info.distance, 100);
            assert_eq!(info.duration_ms, 100);
        }
        other => panic!("expected a left swipe, got {other:?}"),
    }
}

#[test]
fn rightward_and_vertical_swipes() {
    let mut g = GestureClassifier::new();
    g.process(0, TouchPoint { x: 50, y: 100 });
    assert!(matches!(
        g.process(80, TouchPoint { x: 150, y: 100 }),
        Some(TouchEvent::Swipe(Direction::Right, _))
    ));

    g.process(1000, TouchPoint { x: 100, y: 200 });
    assert!(matches!(
        g.process(1080, TouchPoint { x: 100, y: 60 }),
        Some(TouchEvent::Swipe(Direction::Up, _))
    ));

    g.process(2000, TouchPoint { x: 100, y: 40 });
    assert!(matches!(
        g.process(2080, TouchPoint { x: 105, y: 180 }),
        Some(TouchEvent::Swipe(Direction::Down, _))
    ));
}

#[test]
fn small_displacement_yields_no_new_information() {
    let mut g = GestureClassifier::new();
    g.process(1000, TouchPoint { x: 120, y: 120 });
    assert_eq!(g.process(1050, TouchPoint { x: 130, y: 125 }), None);
}

#[test]
fn stale_previous_sample_starts_a_new_touch() {
    let mut g = GestureClassifier::new();
    g.process(1000, TouchPoint { x: 200, y: 120 });
    // Far apart in time: a large displacement is a new touch, not a swipe.
    let r = g.process(2000, TouchPoint { x: 100, y: 120 });
    assert_eq!(r, Some(TouchEvent::TouchOnePoint(TouchPoint { x: 100, y: 120 })));
}

#[test]
fn swipe_consumes_the_gesture() {
    let mut g = GestureClassifier::new();
    g.process(1000, TouchPoint { x: 200, y: 120 });
    assert!(matches!(
        g.process(1100, TouchPoint { x: 100, y: 120 }),
        Some(TouchEvent::Swipe(Direction::Left, _))
    ));
    // The next sample starts over as a fresh touch.
    let r = g.process(1200, TouchPoint { x: 90, y: 120 });
    assert_eq!(r, Some(TouchEvent::TouchOnePoint(TouchPoint { x: 90, y: 120 })));
}
