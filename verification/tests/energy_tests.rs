use wfs2map::energy::{flip_demo, greet, DistanceSensor};

#[test]
fn greet_greets_by_name() {
    assert_eq!(greet("World"), "Hello, World! You've been greeted from Rust!");
}

#[test]
fn greet_with_empty_name() {
    assert_eq!(greet(""), "Hello, ! You've been greeted from Rust!");
}

#[test]
fn demo_distances_stay_in_range() {
    let mut sensor = DistanceSensor::new();
    for _ in 0..2000 {
        let d = sensor.next_distance(true);
        assert!((20..500).contains(&d));
    }
}

#[test]
fn normal_distances_stay_in_range() {
    let mut sensor = DistanceSensor::new();
    for _ in 0..2000 {
        let d = sensor.next_distance(false);
        assert!((100..500).contains(&d));
    }
}

#[test]
fn toggle_distances_stay_in_range() {
    let mut sensor = DistanceSensor::new();
    for _ in 0..2000 {
        let d = sensor.toggle_distance();
        assert!((200..500).contains(&d));
    }
}

#[test]
fn demo_distances_are_not_constant() {
    let mut sensor = DistanceSensor::new();
    let first = sensor.next_distance(true);
    let mut differs = false;
    for _ in 0..200 {
        if sensor.next_distance(true) != first {
            differs = true;
        }
    }
    assert!(differs);
}

#[test]
fn flip_demo_negates_and_twice_restores() {
    assert_eq!(flip_demo(false), Some(true));
    assert_eq!(flip_demo(true), Some(false));
    assert_eq!(flip_demo(flip_demo(false).unwrap()), Some(false));
}

#[test]
fn distance_bounds_follow_demo_mode() {
    assert_eq!(wfs2map::energy::distance_bounds(true), (20, 500));
    assert_eq!(wfs2map::energy::distance_bounds(false), (100, 500));
    assert_eq!(wfs2map::energy::toggle_bounds(), (200, 500));
}

#[test]
fn draw_stays_in_requested_range() {
    let mut sensor = DistanceSensor::new();
    for _ in 0..2000 {
        let d = sensor.draw(3, 7);
        assert!((3..7).contains(&d));
    }
    assert_eq!(sensor.draw(41, 42), 41);
}
