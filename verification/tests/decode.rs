use actuator_core::decode::{parse_angle, Color, DecodeError};

#[test]
fn color_decodes_valid_payload() {
    let c = Color::try_from(b"ff0080".as_slice()).unwrap();
    assert_eq!(c.r, 255);
    assert_eq!(c.g, 0);
    assert_eq!(c.b, 128);
}

#[test]
fn color_accepts_both_cases() {
    let c = Color::try_from(b"FF00aA".as_slice()).unwrap();
    assert_eq!(c.r, 255);
    assert_eq!(c.g, 0);
    assert_eq!(c.b, 170);
}

#[test]
fn color_rejects_non_hex() {
    assert_eq!(
        Color::try_from(b"zz0080".as_slice()),
        Err(DecodeError::NotHex)
    );
    assert_eq!(
        Color::try_from(b"ff00g0".as_slice()),
        Err(DecodeError::NotHex)
    );
}

#[test]
fn color_rejects_wrong_length() {
    assert_eq!(
        Color::try_from(b"ff00".as_slice()),
        Err(DecodeError::WrongLength)
    );
    assert_eq!(
        Color::try_from(b"ff0080ff".as_slice()),
        Err(DecodeError::WrongLength)
    );
    assert_eq!(Color::try_from(b"".as_slice()), Err(DecodeError::WrongLength));
}

#[test]
fn angle_parses_digits() {
    assert_eq!(parse_angle(b"90".as_slice()), Ok(90));
    assert_eq!(parse_angle(b"0".as_slice()), Ok(0));
    assert_eq!(parse_angle(b"000180".as_slice()), Ok(180));
    assert_eq!(parse_angle(b"999999".as_slice()), Ok(999999));
}

#[test]
fn angle_rejects_wrong_length() {
    assert_eq!(parse_angle(b"".as_slice()), Err(DecodeError::WrongLength));
    assert_eq!(
        parse_angle(b"1234567".as_slice()),
        Err(DecodeError::WrongLength)
    );
}

#[test]
fn angle_rejects_non_decimal() {
    assert_eq!(parse_angle(b"12a".as_slice()), Err(DecodeError::NotDecimal));
    assert_eq!(parse_angle(b"-1".as_slice()), Err(DecodeError::NotDecimal));
    assert_eq!(parse_angle(b"+9".as_slice()), Err(DecodeError::NotDecimal));
}
