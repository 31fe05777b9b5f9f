use rips_packets::macaddr::MacAddr;
use rips_packets::macaddr::MacAddrLengthError;
use rips_packets::macaddr::MacAddrParseError;

#[test]
fn from_slice() {
    let data = [5, 6, 7, 8, 9, 10];
    let mac = MacAddr::from_slice(&data[..]);
    assert_eq!(data, mac.as_ref());
}

#[test]
fn from_bytes() {
    let mac = MacAddr::from_bytes(2, 3, 4, 5, 6, 7);
    assert_eq!([2, 3, 4, 5, 6, 7], mac.as_ref());
}

#[test]
fn as_ref() {
    let data = [5, 6, 7, 8, 9, 10];
    let mac = MacAddr(data);
    assert_eq!(data, mac.as_ref());
}

#[test]
fn display() {
    let mac = MacAddr([255, 6, 7, 8, 9, 10]);
    assert_eq!("ff:06:07:08:09:0a", mac.to_string());
}

#[test]
fn from_str() {
    let result = MacAddr::from_str("01:02:ff:ac:13:37");
    assert_eq!(result, Ok(MacAddr([0x01, 0x02, 0xff, 0xac, 0x13, 0x37])));
}

#[test]
fn from_str_upper_case() {
    let result = MacAddr::from_str("01:02:FF:AC:13:37");
    assert_eq!(result, Ok(MacAddr([0x01, 0x02, 0xff, 0xac, 0x13, 0x37])));
}

#[test]
fn from_str_single_digit_groups() {
    let result = MacAddr::from_str("1:2:3:4:5:6");
    assert_eq!(result, Ok(MacAddr([1, 2, 3, 4, 5, 6])));
}

#[test]
fn from_str_zero_padded_group() {
    let result = MacAddr::from_str("0001:2:3:4:5:6");
    assert_eq!(result, Ok(MacAddr([1, 2, 3, 4, 5, 6])));
}

#[test]
fn from_str_plus_sign_group() {
    let result = MacAddr::from_str("+f:2:3:4:5:6");
    assert_eq!(result, Ok(MacAddr([0xf, 2, 3, 4, 5, 6])));
}

#[test]
fn from_str_rejects_overflowing_group() {
    let result = MacAddr::from_str("100:2:3:4:5:6");
    assert_eq!(result, Err(MacAddrParseError(String::from("100:2:3:4:5:6"))));
}

#[test]
fn from_str_rejects_empty_group() {
    let result = MacAddr::from_str("01::02:03:04:05");
    assert_eq!(
        result,
        Err(MacAddrParseError(String::from("01::02:03:04:05")))
    );
}

#[test]
fn from_str_rejects_seven_groups() {
    let result = MacAddr::from_str("01:02:03:04:05:06:07");
    assert_eq!(
        result,
        Err(MacAddrParseError(String::from("01:02:03:04:05:06:07")))
    );
}

#[test]
fn from_str_rejects_trailing_colon() {
    let result = MacAddr::from_str("01:02:03:04:05:06:");
    assert_eq!(
        result,
        Err(MacAddrParseError(String::from("01:02:03:04:05:06:")))
    );
}

#[test]
fn parse_error_message_carries_the_input() {
    let err = MacAddrParseError(String::from("not a mac"));
    assert_eq!("Invalid MAC string: not a mac", err.message());
}

#[test]
fn from_str_rejects_short_string() {
    let result = MacAddr::from_str("01:02:ff:ac:13");
    assert_eq!(
        result,
        Err(MacAddrParseError(String::from("01:02:ff:ac:13")))
    );
}

#[test]
fn from_str_rejects_bad_digit() {
    let result = MacAddr::from_str("01:02:zz:ac:13:37");
    assert_eq!(
        result,
        Err(MacAddrParseError(String::from("01:02:zz:ac:13:37")))
    );
}

#[test]
fn from_str_rejects_bad_separator() {
    let result = MacAddr::from_str("01-02-ff-ac-13-37");
    assert_eq!(
        result,
        Err(MacAddrParseError(String::from("01-02-ff-ac-13-37")))
    );
}

#[test]
fn try_from_slice_six_bytes() {
    let data = [1, 2, 3, 4, 5, 6];
    assert_eq!(Ok(MacAddr(data)), MacAddr::try_from_slice(&data[..]));
}

#[test]
fn try_from_slice_wrong_length() {
    assert_eq!(
        Err(MacAddrLengthError),
        MacAddr::try_from_slice(&[1, 2, 3, 4, 5][..])
    );
    assert_eq!(
        Err(MacAddrLengthError),
        MacAddr::try_from_slice(&[1, 2, 3, 4, 5, 6, 7][..])
    );
}

#[test]
fn broadcast_is_all_ones() {
    assert_eq!([0xff; 6], MacAddr::broadcast().as_ref());
}

#[test]
fn from_array() {
    let mac = MacAddr::from([9, 8, 7, 6, 5, 4]);
    assert_eq!([9, 8, 7, 6, 5, 4], mac.as_ref());
}

#[test]
fn display_round_trips_through_from_str() {
    let mac = MacAddr([0x00, 0x1b, 0x44, 0x11, 0x3a, 0xb7]);
    assert_eq!(Ok(mac), MacAddr::from_str(&mac.to_string()));
}
