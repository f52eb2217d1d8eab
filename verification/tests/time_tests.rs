use bcm2711_hal::time::{Duration, Instant};

#[test]
fn test_instant_ops() {
    // std::ops::Add
    assert_eq!(
        Instant::from_millis(4) + Duration::from_millis(6),
        Instant::from_millis(10)
    );
    // std::ops::Sub
    assert_eq!(
        Instant::from_millis(7) - Duration::from_millis(5),
        Instant::from_millis(2)
    );
}

#[test]
fn test_instant_getters() {
    let instant = Instant::from_millis(5674);
    assert_eq!(instant.secs(), 5);
    assert_eq!(instant.millis(), 674);
    assert_eq!(instant.total_millis(), 5674);
}

#[test]
fn test_instant_display() {
    assert_eq!(Instant::from_millis(5674).to_string(), "5.674s");
    assert_eq!(Instant::from_millis(5000).to_string(), "5.0s");
}

#[test]
fn test_duration_ops() {
    // std::ops::Add
    assert_eq!(
        Duration::from_millis(40) + Duration::from_millis(2),
        Duration::from_millis(42)
    );
    // std::ops::Sub
    assert_eq!(
        Duration::from_millis(555) - Duration::from_millis(42),
        Duration::from_millis(513)
    );
    // std::ops::Mul
    assert_eq!(Duration::from_millis(13) * 22, Duration::from_millis(286));
    // std::ops::Div
    assert_eq!(Duration::from_millis(53) / 4, Duration::from_millis(13));
}

#[test]
fn test_duration_assign_ops() {
    let mut duration = Duration::from_millis(4735);
    duration += Duration::from_millis(1733);
    assert_eq!(duration, Duration::from_millis(6468));
    duration -= Duration::from_millis(1234);
    assert_eq!(duration, Duration::from_millis(5234));
    duration *= 4;
    assert_eq!(duration, Duration::from_millis(20936));
    duration /= 5;
    assert_eq!(duration, Duration::from_millis(4187));
}

#[test]
fn test_duration_getters() {
    let instant = Duration::from_millis(4934);
    assert_eq!(instant.secs(), 4);
    assert_eq!(instant.millis(), 934);
    assert_eq!(instant.total_millis(), 4934);
}

#[test]
fn test_duration_conversions() {
    let mut std_duration = ::core::time::Duration::from_millis(4934);
    let duration: Duration = std_duration.into();
    assert_eq!(duration, Duration::from_millis(4934));
    assert_eq!(Duration::from(std_duration), Duration::from_millis(4934));

    std_duration = duration.into();
    assert_eq!(std_duration, ::core::time::Duration::from_millis(4934));
}

#[test]
fn test_negative_instant_parts() {
    let instant = Instant::from_millis(-1500);
    assert_eq!(instant.secs(), -1);
    assert_eq!(instant.millis(), -500);
    assert_eq!(instant.to_string(), "-1.-500s");
}

#[test]
fn test_instant_difference_is_distance() {
    let a = Instant::from_millis(1200);
    let b = Instant::from_millis(200);
    assert_eq!(a - b, Duration::from_millis(1000));
    assert_eq!(b - a, Duration::from_millis(1000));
}

#[test]
fn test_duration_display_pads_millis() {
    assert_eq!(Duration::from_millis(5007).to_string(), "5.007s");
    assert_eq!(Duration::from_millis(42).to_string(), "0.042s");
    assert_eq!(Duration::from_millis(12345).to_string(), "12.345s");
}

#[test]
fn test_duration_from_secs_and_nanos() {
    assert_eq!(Duration::from_secs_and_nanos(3, 999_999_999).total_millis(), 3999);
    assert_eq!(Duration::from_secs(2).total_millis(), 2000);
    assert_eq!(Instant::from_secs(-3).total_millis(), -3000);
}
