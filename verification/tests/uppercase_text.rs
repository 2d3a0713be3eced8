use keyboard_hook::uppercase::const_ascii_uppercase;
use keyboard_hook::uppercase::to_upper;
use keyboard_hook::uppercase::ConstUppercaseData;

#[test]
fn letters_become_capitals() {
    let data = const_ascii_uppercase::<16>("abcXYZ-1.2_z");
    assert_eq!(data.len(), 12);
    assert_eq!(data.to_bytes(), b"ABCXYZ-1.2_Z".to_vec());
    assert!(!data.is_empty());
    assert_eq!(data.byte_at(0), b'A');
    assert_eq!(data.byte_at(11), b'Z');
}

#[test]
fn exact_fit_and_empty() {
    let data = const_ascii_uppercase::<5>("hello");
    assert_eq!(data.to_bytes(), b"HELLO".to_vec());
    let empty = const_ascii_uppercase::<0>("");
    assert_eq!(empty.len(), 0);
    assert!(empty.is_empty());
    assert_eq!(empty.to_bytes(), Vec::<u8>::new());
    let zeroed = ConstUppercaseData::<4>::zeroed();
    assert_eq!(zeroed.len(), 0);
    assert_eq!(zeroed.arr, [0u8; 4]);
}

#[test]
fn rest_of_the_buffer_stays_zero() {
    let data = const_ascii_uppercase::<6>("ab");
    assert_eq!(data.arr, [b'A', b'B', 0, 0, 0, 0]);
    assert_eq!(data.len, 2);
}

#[test]
fn bytes_outside_the_letters_stay() {
    let text = "straße é ñ 日本";
    let data = const_ascii_uppercase::<32>(text);
    let upper = String::from_utf8(data.to_bytes()).unwrap();
    assert_eq!(upper, "STRAßE é ñ 日本");
    assert_eq!(upper, text.to_ascii_uppercase());
}

#[test]
fn every_byte() {
    for b in 0u8..=255 {
        assert_eq!(to_upper(b), b.to_ascii_uppercase());
    }
    assert_eq!(to_upper(b'a'), b'A');
    assert_eq!(to_upper(b'z'), b'Z');
    assert_eq!(to_upper(b'`'), b'`');
    assert_eq!(to_upper(b'{'), b'{');
}
