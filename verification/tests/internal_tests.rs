use cue_sdk::internal::{c_string_bytes, try_c_char_ptr_to_str, CuePropertyValueHolder};

#[test]
fn try_c_char_ptr_to_str_null_ptr() {
    assert_eq!(try_c_char_ptr_to_str(None), Ok(None))
}

#[test]
fn try_c_char_ptr_to_str_invalid_unicode() {
    let c_string = vec![0xC0, 0xC0, 0xC0];
    assert!(matches!(try_c_char_ptr_to_str(Some(c_string.as_slice())), Err(_Utf8Error)))
}

#[test]
fn try_c_char_ptr_to_str_all_valid() {
    let c_string = b"A STRING HERE".to_vec();
    assert_eq!(
        try_c_char_ptr_to_str(Some(c_string.as_slice())),
        Ok(Some("A STRING HERE".to_string()))
    )
}

#[test]
fn try_c_char_ptr_to_str_decodes() {
    assert_eq!(try_c_char_ptr_to_str(Some(&[])), Ok(Some(String::new())));
    let bytes = [0x67, 0x72, 0xC3, 0xBC, 0xC3, 0x9F, 0x65, 0xE2, 0x82, 0xAC];
    assert_eq!(try_c_char_ptr_to_str(Some(&bytes)), Ok(Some("gr\u{fc}\u{df}e\u{20ac}".to_string())));
    let error = try_c_char_ptr_to_str(Some(&[0x61, 0x62, 0xFF, 0x63])).unwrap_err();
    assert_eq!(error.valid_up_to(), 2);
}

#[test]
fn c_string_bytes_stop_at_the_first_nul() {
    assert_eq!(c_string_bytes(&[]), Vec::<u8>::new());
    assert_eq!(c_string_bytes(&[0]), Vec::<u8>::new());
    assert_eq!(c_string_bytes(&[0, 1, 2]), Vec::<u8>::new());
    assert_eq!(c_string_bytes(&[1, 2, 0, 3, 0]), vec![1, 2]);
    assert_eq!(c_string_bytes(&[9, 8, 7]), vec![9, 8, 7]);
    assert_eq!(c_string_bytes(&[9, 8, 7, 0]), vec![9, 8, 7]);
}

#[derive(Debug, PartialEq)]
struct FakeThing(i32);

impl Default for FakeThing {
    fn default() -> Self {
        FakeThing(42)
    }
}

#[test]
fn test_new_default() {
    let fake_thing = CuePropertyValueHolder::<FakeThing>::new().value();
    assert_eq!(fake_thing, FakeThing(42));
}

#[test]
fn test_single_update_and_consume() {
    let mut vh = CuePropertyValueHolder::new_with_initial_value(50);
    let ptr = vh.mut_ptr();
    std::mem::swap(&mut (*ptr), &mut 95);
    let value_out = vh.value();
    assert_eq!(value_out, 95);
}

#[test]
fn test_multiple_updates_and_consume() {
    let mut vh = CuePropertyValueHolder::new_with_initial_value(50);
    let ptr = vh.mut_ptr();
    std::mem::swap(&mut (*ptr), &mut 95);
    std::mem::swap(&mut (*ptr), &mut 22);
    let value_out = vh.value();
    assert_eq!(value_out, 22);
}

#[test]
fn test_gets_proper_initial_value() {
    let mut vh = CuePropertyValueHolder::new_with_initial_value(FakeThing(999));
    let _ = vh.mut_ptr();
    //don't use the mut ptr
    let value_out = vh.value();
    assert_eq!(value_out, FakeThing(999));
}

#[test]
fn holder_starts_with_the_default_of_its_type() {
    assert_eq!(CuePropertyValueHolder::<bool>::new().value(), false);
    assert_eq!(CuePropertyValueHolder::<i32>::new().value(), 0);
    let mut holder = CuePropertyValueHolder::<i32>::new();
    *holder.mut_ptr() = -7;
    assert_eq!(holder.value(), -7);
}
