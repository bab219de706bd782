use actuator_core::actuator::{set_color, set_servo_angle, PwmChannel};
use actuator_core::decode::DecodeError;
use actuator_core::duty::interpolate;

#[test]
fn color_duties_equal_bytes_when_range_is_eight_bit() {
    let mut red = PwmChannel::new(255);
    let mut green = PwmChannel::new(255);
    let mut blue = PwmChannel::new(255);
    let r = set_color(b"ff00ff".as_slice(), &mut red, &mut green, &mut blue);
    assert_eq!(r, Ok(()));
    assert_eq!(red.duty, 255);
    assert_eq!(green.duty, 0);
    assert_eq!(blue.duty, 255);
}

#[test]
fn color_duties_scale_to_channel_range() {
    let mut red = PwmChannel::new(16383);
    let mut green = PwmChannel::new(16383);
    let mut blue = PwmChannel::new(16383);
    let r = set_color(b"ff0080".as_slice(), &mut red, &mut green, &mut blue);
    assert_eq!(r, Ok(()));
    assert_eq!(red.duty, 16383);
    assert_eq!(green.duty, 0);
    // 128 * 16383 / 255 == 8223 (floor)
    assert_eq!(blue.duty, 8223);
}

#[test]
fn malformed_color_payload_touches_no_channel() {
    let mut red = PwmChannel::new(255);
    let mut green = PwmChannel::new(255);
    let mut blue = PwmChannel::new(255);
    red.set_duty(7);
    green.set_duty(8);
    blue.set_duty(9);
    let r = set_color(b"zz0080".as_slice(), &mut red, &mut green, &mut blue);
    assert_eq!(r, Err(DecodeError::NotHex));
    assert_eq!(red.duty, 7);
    assert_eq!(green.duty, 8);
    assert_eq!(blue.duty, 9);
}

#[test]
fn short_color_payload_touches_no_channel() {
    let mut red = PwmChannel::new(255);
    let mut green = PwmChannel::new(255);
    let mut blue = PwmChannel::new(255);
    let r = set_color(b"ff00".as_slice(), &mut red, &mut green, &mut blue);
    assert_eq!(r, Err(DecodeError::WrongLength));
    assert_eq!(red.duty, 0);
    assert_eq!(green.duty, 0);
    assert_eq!(blue.duty, 0);
}

#[test]
fn servo_angle_sets_interpolated_duty() {
    let mut servo = PwmChannel::new(16383);
    let min = 16383 / 40;
    let max = 16383 / 8;
    let r = set_servo_angle(b"90".as_slice(), &mut servo, min, max);
    assert_eq!(r, Ok(()));
    assert_eq!(servo.duty, interpolate(90, min, max));
}

#[test]
fn servo_angle_endpoints() {
    let mut servo = PwmChannel::new(16383);
    assert_eq!(set_servo_angle(b"0".as_slice(), &mut servo, 409, 2047), Ok(()));
    assert_eq!(servo.duty, 409);
    assert_eq!(
        set_servo_angle(b"180".as_slice(), &mut servo, 409, 2047),
        Ok(())
    );
    assert_eq!(servo.duty, 2047);
}

#[test]
fn out_of_domain_angle_is_clamped() {
    let mut servo = PwmChannel::new(16383);
    assert_eq!(
        set_servo_angle(b"999".as_slice(), &mut servo, 409, 2047),
        Ok(())
    );
    assert_eq!(servo.duty, 2047);
}

#[test]
fn malformed_angle_payload_touches_no_channel() {
    let mut servo = PwmChannel::new(16383);
    let r = set_servo_angle(b"12a".as_slice(), &mut servo, 409, 2047);
    assert_eq!(r, Err(DecodeError::NotDecimal));
    assert_eq!(servo.duty, 0);
    let r = set_servo_angle(b"1234567".as_slice(), &mut servo, 409, 2047);
    assert_eq!(r, Err(DecodeError::WrongLength));
    assert_eq!(servo.duty, 0);
}
