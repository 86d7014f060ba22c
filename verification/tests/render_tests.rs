use countdown_timer::render::render_remaining;

#[test]
fn renders_nine_minutes_five_seconds() {
    assert_eq!(render_remaining(9 * 60 + 5), b"09:05".to_vec());
}

#[test]
fn renders_over_ninety_nine_minutes_untruncated() {
    assert_eq!(render_remaining(125 * 60 + 3), b"125:03".to_vec());
}

#[test]
fn renders_zero() {
    assert_eq!(render_remaining(0), b"00:00".to_vec());
}

#[test]
fn renders_one_minute() {
    assert_eq!(render_remaining(60), b"01:00".to_vec());
}

#[test]
fn renders_just_under_ten_minutes() {
    assert_eq!(render_remaining(599), b"09:59".to_vec());
}

#[test]
fn renders_ten_minutes() {
    assert_eq!(render_remaining(600), b"10:00".to_vec());
}

#[test]
fn renders_one_second() {
    assert_eq!(render_remaining(1), b"00:01".to_vec());
}

#[test]
fn renders_largest_duration_start() {
    assert_eq!(render_remaining(255 * 60), b"255:00".to_vec());
}
