use renderer::camera::{clamp_pitch, Orientation, PITCH_LIMIT};

#[test]
fn pitch_beyond_the_poles_is_clamped() {
    assert_eq!(clamp_pitch(10000), 8999);
    assert_eq!(clamp_pitch(-10000), -8999);
    assert_eq!(clamp_pitch(9000), PITCH_LIMIT);
    assert_eq!(clamp_pitch(-9000), -PITCH_LIMIT);
    assert_eq!(clamp_pitch(i32::MAX), 8999);
    assert_eq!(clamp_pitch(i32::MIN), -8999);
}

#[test]
fn pitch_inside_is_kept() {
    assert_eq!(clamp_pitch(0), 0);
    assert_eq!(clamp_pitch(8999), 8999);
    assert_eq!(clamp_pitch(-4500), -4500);
}

#[test]
fn orientation_clamps_only_pitch() {
    let o = Orientation::new(10000, 36000, -500);
    assert_eq!(o.pitch(), 8999);
    assert_eq!(o.yaw(), 36000);
    assert_eq!(o.roll(), -500);
    let o = Orientation::new(-10000, 0, 0);
    assert_eq!(o.pitch(), -8999);
    assert!(o.pitch() > -9000 && o.pitch() < 9000);
    let o = Orientation::new(0, 0, 0);
    assert_eq!(o, Orientation::new(0, 0, 0));
    assert_eq!(o.pitch(), 0);
}
