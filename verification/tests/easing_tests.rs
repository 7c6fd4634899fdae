use rover_core::easing::Easing;

fn advance_values(easing: &mut Easing, ticks: usize) -> Vec<i64> {
    let mut values = Vec::new();
    for _ in 0..ticks {
        values.push(easing.apply_easing());
    }
    values
}

#[test]
fn ramp_follows_ease_out_cubic_exactly() {
    // One second per unit of distance, 100 ms ticks, full-scale ramp:
    // normalized progress grows by 100 thousandths per tick.
    let mut easing = Easing::new(0, 1000, 1000, 100);
    let values = advance_values(&mut easing, 10);
    assert_eq!(values, vec![271, 488, 657, 784, 875, 936, 973, 992, 999, 1000]);
}

#[test]
fn ramp_is_monotonic_and_converges() {
    let mut easing = Easing::new(-1000, 1000, 1000, 100);
    let mut previous = -1000;
    let mut ticks = 0;
    while !easing.is_finished() {
        let value = easing.apply_easing();
        assert!(value >= previous, "ramp moved away from its target");
        assert!(value <= 1000);
        previous = value;
        ticks += 1;
        assert!(ticks <= 1000, "ramp did not converge in bounded ticks");
    }
    assert_eq!(previous, 1000);
}

#[test]
fn downward_ramp_is_monotonically_decreasing() {
    let mut easing = Easing::new(500, -500, 1000, 100);
    let mut previous = 500;
    for _ in 0..20 {
        let value = easing.apply_easing();
        assert!(value <= previous);
        assert!(value >= -500);
        previous = value;
    }
    assert_eq!(previous, -500);
    assert!(easing.is_finished());
}

#[test]
fn zero_distance_is_finished_immediately() {
    let easing = Easing::new(400, 400, 1000, 100);
    assert!(easing.is_finished());
    // And advancing divides by the nominal duration, not by zero.
    let mut easing = easing;
    assert_eq!(easing.apply_easing(), 400);
}

#[test]
fn retarget_resets_finished() {
    let mut easing = Easing::new(0, 200, 1000, 100);
    for _ in 0..10 {
        easing.apply_easing();
    }
    assert!(easing.is_finished());
    let retargeted = easing.with(200, 800);
    assert!(!retargeted.is_finished());
    let same_endpoints = easing.with(300, 300);
    assert!(same_endpoints.is_finished());
}

#[test]
fn proportionally_shorter_ramp_for_shorter_distance() {
    // Distance 200 thousandths: duration 200 ms, so two 100 ms ticks finish.
    let mut easing = Easing::new(0, 200, 1000, 100);
    easing.apply_easing();
    assert!(!easing.is_finished());
    easing.apply_easing();
    assert!(easing.is_finished());
}
