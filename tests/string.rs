use cspice::string::{find_nul, text_before_nul, MissingNul, SpiceStr, StringParam};
use cspice::SpiceString;

#[test]
fn test_from_buffer() {
    let buffer = vec![b'a', b'b', 0, 0, 0];
    let spice_str = SpiceString::from_buffer(buffer).unwrap();
    assert_eq!(spice_str.as_str(), "ab");
}

#[test]
fn test_from_bad_buffer() {
    let buffer = vec![b'a', b'b'];
    assert_eq!(SpiceString::from_buffer(buffer).err(), Some(MissingNul));
}

#[test]
fn round_trip_reproduces_text() {
    for text in ["", "J2000", "moon", "héllo wörld", "日本語 ✓", "a b\tc"] {
        let native = SpiceString::new(text).unwrap();
        let bytes = native.as_bytes_with_nul().to_vec();
        assert_eq!(bytes.last(), Some(&0));
        assert_eq!(SpiceString::from_buffer(bytes.clone()).unwrap().as_str(), text);
        assert_eq!(SpiceStr::from_buffer(&bytes).unwrap().as_str(), text);
    }
}

#[test]
fn embedded_nul_is_refused() {
    let error = SpiceString::new("ab\0cd").err().unwrap();
    assert_eq!(error.position, 2);
    assert_eq!(SpiceString::new("\0").err().unwrap().position, 0);
}

#[test]
fn native_form_appends_one_nul() {
    let s = SpiceString::new("SET").unwrap();
    assert_eq!(s.as_bytes_with_nul(), b"SET\0");
    assert_eq!(SpiceString::new("").unwrap().as_bytes_with_nul(), b"\0");
}

#[test]
fn borrowed_view_stops_at_first_nul() {
    let buffer = [b'x', b'y', 0, b'z', 0];
    let view = SpiceStr::from_buffer(&buffer).unwrap();
    assert_eq!(view.as_str(), "xy");
    assert!(SpiceStr::from_buffer(b"xyz").is_err());
    assert_eq!(SpiceStr::from_buffer(&[0]).unwrap().as_str(), "");
}

#[test]
fn invalid_bytes_are_replaced() {
    let buffer = vec![b'o', b'k', 0xc3, 0];
    assert_eq!(SpiceString::from_buffer(buffer).unwrap().as_str(), "ok\u{fffd}");
    assert_eq!(text_before_nul(&[0xff, b'a']), "\u{fffd}a");
}

#[test]
fn find_first_nul() {
    assert_eq!(find_nul(&[1, 0, 0]), Some(1));
    assert_eq!(find_nul(&[1, 2]), None);
    assert_eq!(find_nul(&[]), None);
    assert_eq!(text_before_nul(b"abc"), "abc");
}

#[test]
fn string_param_gives_its_string() {
    let kept = SpiceString::new("earth").unwrap();
    let borrowed = StringParam::Ref(&kept);
    assert_eq!(borrowed.get().as_str(), "earth");
    let owned = StringParam::Owned(SpiceString::new("moon").unwrap());
    assert_eq!(owned.get().as_str(), "moon");
}
