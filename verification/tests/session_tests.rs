use cue_sdk::callback::{SessionSlot, SessionStateChange};
use cue_sdk::error::{check, SdkError};
use cue_sdk::native::{
    RawArray, RawProperty, RawSessionDetails, RawSessionDeviceInfo, RawSessionLedPosition,
    RawVersion,
};
use cue_sdk::session::device::{
    c_char_array_to_string, DeviceId, DeviceInfo, DeviceInfoFromFfiError, DeviceType,
};
use cue_sdk::session::keyboard;
use cue_sdk::session::led::{LedColor, LedPosition};
use cue_sdk::session::property::{
    array_items, make_bool_property, make_float64_property, make_int32_property, strings_of,
    text_of, zeroed_value, DataType, PropertyFlags, PropertyId, PropertyInfo, PropertyValue,
    PropertyValueFromFfiError,
};
use cue_sdk::session::{
    AccessLevel, ConnectionWait, GetDeviceInfoError, ReadArrayError, ReadPropertyError, Received,
    Session, SessionDetails, SessionState, Version, WaitRound, WaitStep,
};

fn version(major: i32) -> RawVersion {
    RawVersion { major, minor: 1, patch: 2 }
}

fn details() -> RawSessionDetails {
    RawSessionDetails {
        client_version: version(4),
        server_version: version(5),
        server_host_version: version(6),
    }
}

fn buffer(text: &[u8]) -> [u8; 128] {
    let mut out = [0u8; 128];
    out[..text.len()].copy_from_slice(text);
    out
}

// ---- result codes ----

#[test]
fn result_codes() {
    assert_eq!(check(0), Ok(()));
    assert_eq!(check(1), Err(SdkError::NotConnected));
    assert_eq!(check(2), Err(SdkError::NoControl));
    assert_eq!(check(3), Err(SdkError::IncompatibleProtocol));
    assert_eq!(check(4), Err(SdkError::InvalidArguments));
    assert_eq!(check(5), Err(SdkError::InvalidOperation));
    assert_eq!(check(6), Err(SdkError::DeviceNotFound));
    assert_eq!(check(7), Err(SdkError::NotAllowed));
    assert_eq!(check(8), Err(SdkError::Unknown(8)));
    assert_eq!(check(u32::MAX), Err(SdkError::Unknown(u32::MAX)));
}

#[test]
fn result_codes_are_those_of_the_bindings() {
    assert_eq!(check(cue_sdk_sys::CorsairError_CE_Success), Ok(()));
    assert_eq!(check(cue_sdk_sys::CorsairError_CE_NotConnected), Err(SdkError::NotConnected));
    assert_eq!(check(cue_sdk_sys::CorsairError_CE_NoControl), Err(SdkError::NoControl));
    assert_eq!(
        check(cue_sdk_sys::CorsairError_CE_IncompatibleProtocol),
        Err(SdkError::IncompatibleProtocol)
    );
    assert_eq!(check(cue_sdk_sys::CorsairError_CE_InvalidArguments), Err(SdkError::InvalidArguments));
    assert_eq!(check(cue_sdk_sys::CorsairError_CE_InvalidOperation), Err(SdkError::InvalidOperation));
    assert_eq!(check(cue_sdk_sys::CorsairError_CE_DeviceNotFound), Err(SdkError::DeviceNotFound));
    assert_eq!(check(cue_sdk_sys::CorsairError_CE_NotAllowed), Err(SdkError::NotAllowed));
    assert_eq!(
        SessionState::from_ffi(cue_sdk_sys::CorsairSessionState_CSS_Connected),
        SessionState::Connected
    );
    assert_eq!(
        SessionState::from_ffi(cue_sdk_sys::CorsairSessionState_CSS_ConnectionLost),
        SessionState::ConnectionLost
    );
    assert_eq!(
        DataType::from_ffi(cue_sdk_sys::CorsairDataType_CT_String_Array),
        Some(DataType::StringArray)
    );
    assert_eq!(
        PropertyId::ChannelDeviceTypeArray.to_ffi(),
        cue_sdk_sys::CorsairDevicePropertyId_CDPI_ChannelDeviceTypeArray
    );
    assert_eq!(keyboard::ESCAPE, cue_sdk_sys::CorsairLedId_Keyboard_CLK_Escape);
    assert_eq!(keyboard::FN, cue_sdk_sys::CorsairLedId_Keyboard_CLK_Fn);
    assert_eq!(
        AccessLevel::ExclusiveLightingControlAndKeyEventsListening.to_ffi(),
        cue_sdk_sys::CorsairAccessLevel_CAL_ExclusiveLightingControlAndKeyEventsListening
    );
    assert_eq!(DeviceType::all().bits(), cue_sdk_sys::CorsairDeviceType_CDT_All);
}

// ---- plain records ----

#[test]
fn versions_and_details() {
    assert_eq!(Version::from_ffi(&version(4)), Version { major: 4, minor: 1, patch: 2 });
    assert_eq!(
        SessionDetails::from_ffi(&details()),
        SessionDetails {
            client_version: Version { major: 4, minor: 1, patch: 2 },
            server_version: Version { major: 5, minor: 1, patch: 2 },
            server_host_version: Version { major: 6, minor: 1, patch: 2 },
        }
    );
}

#[test]
fn session_states() {
    let known = [
        SessionState::Invalid,
        SessionState::Closed,
        SessionState::Connecting,
        SessionState::Timeout,
        SessionState::ConnectionRefused,
        SessionState::ConnectionLost,
        SessionState::Connected,
    ];
    for (code, state) in known.iter().enumerate() {
        assert_eq!(SessionState::from_ffi(code as u32), *state);
    }
    assert_eq!(SessionState::from_ffi(7), SessionState::Unknown(7));
    assert_eq!(SessionState::from_ffi(u32::MAX), SessionState::Unknown(u32::MAX));
}

#[test]
fn access_levels() {
    assert_eq!(AccessLevel::Shared.to_ffi(), 0);
    assert_eq!(AccessLevel::ExclusiveLightingControl.to_ffi(), 1);
    assert_eq!(AccessLevel::ExclusiveKeyEventsListening.to_ffi(), 2);
    assert_eq!(AccessLevel::ExclusiveLightingControlAndKeyEventsListening.to_ffi(), 3);
}

#[test]
fn led_color_constructors() {
    assert_eq!(LedColor::new(3, 1, 2, 3, 4), LedColor { id: 3, r: 1, g: 2, b: 3, a: 4 });
    assert_eq!(LedColor::rgb(9, 200, 20, 165), LedColor { id: 9, r: 200, g: 20, b: 165, a: 255 });
    assert_eq!(LedColor::rgb(keyboard::ESCAPE, 255, 0, 0).id, 1);
    assert_eq!(keyboard::SPACE, 71);
    assert_eq!(
        LedPosition::from_ffi(&RawSessionLedPosition { id: 4, cx: 2.5f64.to_bits(), cy: 0 }),
        LedPosition { id: 4, cx: 2.5f64.to_bits(), cy: 0 }
    );
}

// ---- devices ----

fn raw_device(model: &[u8]) -> RawSessionDeviceInfo {
    RawSessionDeviceInfo {
        type_: 0x0001,
        id: buffer(b"{id}"),
        serial: buffer(b"S/N 1"),
        model: buffer(model),
        led_count: 104,
        channel_count: 0,
    }
}

#[test]
fn device_info_from_ffi() {
    let info = DeviceInfo::from_ffi(&raw_device(b"K70 RGB")).unwrap();
    assert_eq!(
        info,
        DeviceInfo {
            device_type: DeviceType::from_bits_truncate(1),
            id: DeviceId(buffer(b"{id}")),
            serial: "S/N 1".to_string(),
            model: "K70 RGB".to_string(),
            led_count: 104,
            channel_count: 0,
        }
    );
    assert_eq!(info.id.to_text(), "{id}");
    assert_eq!(info.id.as_bytes(), &buffer(b"{id}"));
    assert_eq!(DeviceId::from_ffi(buffer(b"x")), DeviceId(buffer(b"x")));
}

#[test]
fn model_names_are_decoded_leniently() {
    assert_eq!(c_char_array_to_string(b"caf\xC3\xA9\0junk"), "caf\u{e9}");
    assert_eq!(c_char_array_to_string(b"K\xFF70"), "K\u{fffd}70");
    assert_eq!(c_char_array_to_string(&[0xC0]), "\u{fffd}");
    assert_eq!(c_char_array_to_string(&[]), "");
    assert_eq!(DeviceInfo::from_ffi(&raw_device(b"K\x8070")).unwrap().model, "K\u{fffd}70");
}

#[test]
fn device_type_masks() {
    let all = DeviceType::all();
    assert_eq!(all.bits(), 0xFFFF_FFFF);
    let keyboard = DeviceType::from_bits_truncate(cue_sdk::session::device::DEVICE_TYPE_KEYBOARD);
    let mouse = DeviceType::from_bits_truncate(cue_sdk::session::device::DEVICE_TYPE_MOUSE);
    assert_eq!(keyboard.bits(), 1);
    assert_eq!(keyboard.union(mouse).bits(), 3);
    assert!(all.contains(keyboard));
    assert!(keyboard.union(mouse).contains(mouse));
    assert!(!keyboard.contains(mouse));
    assert_eq!(DeviceType::from_bits_truncate(0x8000_0000).bits(), 0x8000_0000);
}

fn session() -> (Session, SessionSlot<u8>) {
    let mut slot = SessionSlot::new();
    let session = Session::connect(&mut slot, 1u8);
    (session, slot)
}

#[test]
fn get_devices_by_count() {
    let (session, _slot) = session();
    let filled = vec![raw_device(b"A"), raw_device(b"B"), raw_device(b"C")];
    assert_eq!(session.get_devices(1, 3, &filled), Err(ReadArrayError::Sdk(SdkError::NotConnected)));
    assert_eq!(session.get_devices(1, -3, &filled), Err(ReadArrayError::Sdk(SdkError::NotConnected)));
    for count in [-1, -64, i32::MIN] {
        assert_eq!(session.get_devices(0, count, &filled), Err(ReadArrayError::InvalidCount(count)));
        assert_eq!(session.get_devices(0, count, &vec![]), Err(ReadArrayError::InvalidCount(count)));
    }
    assert_eq!(session.get_devices(0, 0, &filled), Ok(vec![]));
    assert_eq!(session.get_devices(0, 0, &vec![]), Ok(vec![]));
    let models = |count: i32| -> Vec<String> {
        session.get_devices(0, count, &filled).unwrap().into_iter().map(|d| d.model).collect()
    };
    assert_eq!(models(1), vec!["A"]);
    assert_eq!(models(2), vec!["A", "B"]);
    assert_eq!(models(3), vec!["A", "B", "C"]);
    assert_eq!(models(4), vec!["A", "B", "C"]);
    assert_eq!(models(i32::MAX), vec!["A", "B", "C"]);
    assert_eq!(session.get_device_info(0, &raw_device(b"Z")).unwrap().model, "Z");
    assert_eq!(
        session.get_device_info(6, &raw_device(b"Z")),
        Err(GetDeviceInfoError::Sdk(SdkError::DeviceNotFound))
    );
    let broken = RawSessionDeviceInfo { channel_count: -1, ..raw_device(b"Z") };
    assert_eq!(
        session.get_device_info(0, &broken),
        Err(GetDeviceInfoError::Invalid(DeviceInfoFromFfiError::InvalidChannelCount(-1)))
    );
    assert_eq!(
        session.get_device_info(6, &broken),
        Err(GetDeviceInfoError::Sdk(SdkError::DeviceNotFound))
    );
}

#[test]
fn device_records_are_validated() {
    let negative_leds = RawSessionDeviceInfo { led_count: -1, ..raw_device(b"B") };
    let negative_channels = RawSessionDeviceInfo { channel_count: -7, ..raw_device(b"C") };
    let both = RawSessionDeviceInfo { led_count: -2, channel_count: -3, ..raw_device(b"D") };
    assert_eq!(
        DeviceInfo::from_ffi(&negative_leds),
        Err(DeviceInfoFromFfiError::InvalidLedCount(-1))
    );
    assert_eq!(
        DeviceInfo::from_ffi(&negative_channels),
        Err(DeviceInfoFromFfiError::InvalidChannelCount(-7))
    );
    assert_eq!(DeviceInfo::from_ffi(&both), Err(DeviceInfoFromFfiError::InvalidLedCount(-2)));
    let zero = RawSessionDeviceInfo { led_count: 0, channel_count: 0, ..raw_device(b"E") };
    assert_eq!(DeviceInfo::from_ffi(&zero).unwrap().led_count, 0);
}

#[test]
fn three_devices_of_which_the_second_has_a_negative_led_count() {
    let (session, _slot) = session();
    let negative_leds = RawSessionDeviceInfo { led_count: -1, ..raw_device(b"B") };
    let filled = vec![raw_device(b"A"), negative_leds, raw_device(b"C")];
    assert_eq!(
        session.get_devices(0, 3, &filled),
        Err(ReadArrayError::ElementErrors(vec![DeviceInfoFromFfiError::InvalidLedCount(-1)]))
    );
    // the devices at 0 and 2 are usable by themselves
    assert!(DeviceInfo::from_ffi(&filled[0]).is_ok());
    assert!(DeviceInfo::from_ffi(&filled[2]).is_ok());
    // a count that leaves the broken record out leaves its error out
    assert_eq!(session.get_devices(0, 1, &filled).unwrap().len(), 1);
    let negative_channels = RawSessionDeviceInfo { channel_count: -7, ..raw_device(b"D") };
    let filled = vec![negative_channels, raw_device(b"A"), negative_leds, both_negative()];
    assert_eq!(
        session.get_devices(0, 4, &filled),
        Err(ReadArrayError::ElementErrors(vec![
            DeviceInfoFromFfiError::InvalidChannelCount(-7),
            DeviceInfoFromFfiError::InvalidLedCount(-1),
            DeviceInfoFromFfiError::InvalidLedCount(-2),
        ]))
    );
}

fn both_negative() -> RawSessionDeviceInfo {
    RawSessionDeviceInfo { led_count: -2, channel_count: -3, ..raw_device(b"D") }
}

#[test]
fn get_led_positions_by_count() {
    let (session, _slot) = session();
    let filled = vec![
        RawSessionLedPosition { id: 1, cx: 10, cy: 11 },
        RawSessionLedPosition { id: 2, cx: 20, cy: 21 },
    ];
    assert_eq!(
        session.get_led_positions(6, 2, &filled),
        Err(ReadArrayError::Sdk(SdkError::DeviceNotFound))
    );
    assert_eq!(session.get_led_positions(0, -2, &filled), Err(ReadArrayError::InvalidCount(-2)));
    assert_eq!(session.get_led_positions(0, 0, &filled), Ok(vec![]));
    assert_eq!(
        session.get_led_positions(0, 1, &filled),
        Ok(vec![LedPosition { id: 1, cx: 10, cy: 11 }])
    );
    assert_eq!(
        session.get_led_positions(0, 512, &filled),
        Ok(vec![LedPosition { id: 1, cx: 10, cy: 11 }, LedPosition { id: 2, cx: 20, cy: 21 }])
    );
}

#[test]
fn plain_answers() {
    let (session, _slot) = session();
    for (code, expected) in [(0, Ok(())), (2, Err(SdkError::NoControl)), (9, Err(SdkError::Unknown(9)))] {
        assert_eq!(session.set_led_colors(code), expected);
        assert_eq!(session.set_led_colors_buffer(code), expected);
        assert_eq!(session.get_led_colors(code), expected);
        assert_eq!(session.set_layer_priority(code), expected);
        assert_eq!(session.request_control(code), expected);
        assert_eq!(session.release_control(code), expected);
        assert_eq!(session.configure_key_event(code), expected);
        assert_eq!(session.write_device_property_bool(code), expected);
        assert_eq!(session.write_device_property_int32(code), expected);
        assert_eq!(session.write_device_property_float64(code), expected);
    }
}

#[test]
fn other_answers() {
    let (session, _slot) = session();
    assert_eq!(session.details(0, &details()), Ok(SessionDetails::from_ffi(&details())));
    assert_eq!(session.details(1, &details()), Err(SdkError::NotConnected));
    assert_eq!(session.flush_led_colors(0, Some(0)), Ok(()));
    assert_eq!(session.flush_led_colors(0, Some(2)), Err(SdkError::NoControl));
    assert_eq!(session.flush_led_colors(0, None), Err(SdkError::NotConnected));
    assert_eq!(session.flush_led_colors(5, Some(0)), Err(SdkError::InvalidOperation));
    assert_eq!(session.flush_led_colors(5, None), Err(SdkError::InvalidOperation));
    assert_eq!(session.get_led_luid_for_key_name(0, 38), Ok(38));
    assert_eq!(session.get_led_luid_for_key_name(4, 38), Err(SdkError::InvalidArguments));
    assert_eq!(
        session.get_device_property_info(0, 17, 0xFF),
        Ok(PropertyInfo { data_type: DataType::Int32Array, flags: PropertyFlags::from_bits_truncate(7) })
    );
    assert_eq!(
        session.get_device_property_info(0, 4, 2).unwrap().data_type,
        DataType::Int32
    );
    assert_eq!(session.get_device_property_info(7, 0, 0), Err(SdkError::NotAllowed));
    assert_eq!(
        session.read_device_property(0, &make_int32_property(5)),
        Ok(PropertyValue::Int32(5))
    );
    assert_eq!(
        session.read_device_property(3, &make_int32_property(5)),
        Err(ReadPropertyError::Sdk(SdkError::IncompatibleProtocol))
    );
    let unknown = RawProperty { type_: 4, value: zeroed_value() };
    assert_eq!(
        session.read_device_property(0, &unknown),
        Err(ReadPropertyError::Value(PropertyValueFromFfiError::UnknownDataType(4)))
    );
    assert_eq!(
        session.read_device_property(2, &unknown),
        Err(ReadPropertyError::Sdk(SdkError::NoControl))
    );
    let null_string = RawProperty { type_: 3, value: zeroed_value() };
    assert_eq!(
        session.read_device_property(0, &null_string),
        Err(ReadPropertyError::Value(PropertyValueFromFfiError::NullPointer(DataType::String)))
    );
}

// ---- properties ----

#[test]
fn property_ids_and_flags() {
    let ids = [
        PropertyId::PropertyArray,
        PropertyId::MicEnabled,
        PropertyId::SurroundSoundEnabled,
        PropertyId::SidetoneEnabled,
        PropertyId::EqualizerPreset,
        PropertyId::PhysicalLayout,
        PropertyId::LogicalLayout,
        PropertyId::MacroKeyArray,
        PropertyId::BatteryLevel,
        PropertyId::ChannelLedCount,
        PropertyId::ChannelDeviceCount,
        PropertyId::ChannelDeviceLedCountArray,
        PropertyId::ChannelDeviceTypeArray,
    ];
    for (i, id) in ids.iter().enumerate() {
        assert_eq!(id.to_ffi(), i as u32 + 1);
    }
    let flags = PropertyFlags::from_bits_truncate(0xFFFF_FFFD);
    assert_eq!(flags.bits(), 5);
    assert!(flags.can_read());
    assert!(!flags.can_write());
    assert!(flags.is_indexed());
    assert_eq!(PropertyFlags::from_bits_truncate(2).bits(), 2);
    assert!(PropertyFlags::from_bits_truncate(2).can_write());
    assert_eq!(PropertyFlags::from_bits_truncate(8).bits(), 0);
    assert_eq!(PropertyInfo::from_ffi(99, 1).data_type, DataType::Int32);
    assert_eq!(PropertyInfo::from_ffi(19, 1).data_type, DataType::StringArray);
}

#[test]
fn data_types() {
    assert_eq!(DataType::from_ffi(0), Some(DataType::Boolean));
    assert_eq!(DataType::from_ffi(1), Some(DataType::Int32));
    assert_eq!(DataType::from_ffi(2), Some(DataType::Float64));
    assert_eq!(DataType::from_ffi(3), Some(DataType::String));
    assert_eq!(DataType::from_ffi(16), Some(DataType::BooleanArray));
    assert_eq!(DataType::from_ffi(17), Some(DataType::Int32Array));
    assert_eq!(DataType::from_ffi(18), Some(DataType::Float64Array));
    assert_eq!(DataType::from_ffi(19), Some(DataType::StringArray));
    for raw in [4, 15, 20, u32::MAX] {
        assert_eq!(DataType::from_ffi(raw), None);
    }
}

#[test]
fn property_value_follows_the_discriminant() {
    let mut value = zeroed_value();
    value.boolean = true;
    value.int32 = -12;
    value.float64 = 0.5f64.to_bits();
    value.string = Some(b"bat\xFFtery".to_vec());
    value.boolean_array = RawArray { items: Some(vec![true, false]), count: 2 };
    value.int32_array = RawArray { items: Some(vec![1, -2, 3]), count: 3 };
    value.float64_array = RawArray { items: Some(vec![1.0f64.to_bits()]), count: 1 };
    value.string_array =
        RawArray { items: Some(vec![Some(b"a".to_vec()), Some(vec![]), Some(vec![0xC0])]), count: 3 };
    let read = |type_: u32| PropertyValue::from_ffi(&RawProperty { type_, value: value.clone() });
    assert_eq!(read(0), Ok(PropertyValue::Boolean(true)));
    assert_eq!(read(1), Ok(PropertyValue::Int32(-12)));
    assert_eq!(read(2), Ok(PropertyValue::Float64(0.5f64.to_bits())));
    assert_eq!(read(3), Ok(PropertyValue::String("bat\u{fffd}tery".to_string())));
    assert_eq!(read(16), Ok(PropertyValue::BooleanArray(vec![true, false])));
    assert_eq!(read(17), Ok(PropertyValue::Int32Array(vec![1, -2, 3])));
    assert_eq!(read(18), Ok(PropertyValue::Float64Array(vec![1.0f64.to_bits()])));
    assert_eq!(
        read(19),
        Ok(PropertyValue::StringArray(vec![
            "a".to_string(),
            String::new(),
            "\u{fffd}".to_string()
        ]))
    );
}

#[test]
fn unknown_discriminant_and_null_payload_are_different_errors() {
    let read = |type_: u32| PropertyValue::from_ffi(&RawProperty { type_, value: zeroed_value() });
    for raw in [4, 15, 20, 999, u32::MAX] {
        assert_eq!(read(raw), Err(PropertyValueFromFfiError::UnknownDataType(raw)));
    }
    // an unknown discriminant wins over whatever the union holds
    let mut value = zeroed_value();
    value.string = Some(b"x".to_vec());
    value.int32_array = RawArray { items: Some(vec![1]), count: 1 };
    assert_eq!(
        PropertyValue::from_ffi(&RawProperty { type_: 4, value }),
        Err(PropertyValueFromFfiError::UnknownDataType(4))
    );
    // a string that is a null pointer
    assert_eq!(read(3), Err(PropertyValueFromFfiError::NullPointer(DataType::String)));
    // arrays that promise elements behind a null pointer
    for (type_, data_type) in [
        (16, DataType::BooleanArray),
        (17, DataType::Int32Array),
        (18, DataType::Float64Array),
        (19, DataType::StringArray),
    ] {
        let mut value = zeroed_value();
        value.boolean_array.count = 2;
        value.int32_array.count = 1;
        value.float64_array.count = u32::MAX;
        value.string_array.count = 3;
        assert_eq!(
            PropertyValue::from_ffi(&RawProperty { type_, value }),
            Err(PropertyValueFromFfiError::NullPointer(data_type))
        );
    }
    // plain values have no pointer to be null
    assert_eq!(read(0), Ok(PropertyValue::Boolean(false)));
    assert_eq!(read(1), Ok(PropertyValue::Int32(0)));
    assert_eq!(read(2), Ok(PropertyValue::Float64(0)));
}

#[test]
fn null_strings_of_a_string_array_are_all_reported() {
    let mut value = zeroed_value();
    value.string_array = RawArray {
        items: Some(vec![None, Some(b"a".to_vec()), None, Some(b"b".to_vec()), None]),
        count: 5,
    };
    assert_eq!(
        PropertyValue::from_ffi(&RawProperty { type_: 19, value: value.clone() }),
        Err(PropertyValueFromFfiError::NullStrings(vec![0, 2, 4]))
    );
    assert_eq!(strings_of(&value.string_array), Err(PropertyValueFromFfiError::NullStrings(vec![0, 2, 4])));
    // only the elements that the count covers are looked at
    value.string_array.count = 2;
    assert_eq!(
        PropertyValue::from_ffi(&RawProperty { type_: 19, value: value.clone() }),
        Err(PropertyValueFromFfiError::NullStrings(vec![0]))
    );
    value.string_array.items = Some(vec![Some(b"a".to_vec()), Some(b"b".to_vec()), None]);
    assert_eq!(
        PropertyValue::from_ffi(&RawProperty { type_: 19, value }),
        Ok(PropertyValue::StringArray(vec!["a".to_string(), "b".to_string()]))
    );
}

#[test]
fn property_arrays_without_elements() {
    // a count of zero is the empty array, whatever the pointer
    for items in [None, Some(vec![1, 2])] {
        assert_eq!(array_items(&RawArray { items, count: 0 }, DataType::Int32Array), Ok(vec![]));
    }
    for items in [None, Some(vec![Some(b"a".to_vec()), None])] {
        assert_eq!(strings_of(&RawArray { items, count: 0 }), Ok(vec![]));
    }
    let read = |type_: u32| PropertyValue::from_ffi(&RawProperty { type_, value: zeroed_value() });
    assert_eq!(read(16), Ok(PropertyValue::BooleanArray(vec![])));
    assert_eq!(read(17), Ok(PropertyValue::Int32Array(vec![])));
    assert_eq!(read(18), Ok(PropertyValue::Float64Array(vec![])));
    assert_eq!(read(19), Ok(PropertyValue::StringArray(vec![])));
    let mut value = zeroed_value();
    value.string_array = RawArray { items: Some(vec![None]), count: 0 };
    assert_eq!(
        PropertyValue::from_ffi(&RawProperty { type_: 19, value }),
        Ok(PropertyValue::StringArray(vec![]))
    );
    assert_eq!(
        array_items(&RawArray::<i32> { items: None, count: 5 }, DataType::Int32Array),
        Err(PropertyValueFromFfiError::NullPointer(DataType::Int32Array))
    );
    assert_eq!(
        array_items(&RawArray { items: Some(vec![1, 2]), count: 2 }, DataType::Int32Array),
        Ok(vec![1, 2])
    );
    assert_eq!(
        array_items(&RawArray { items: Some(vec![1, 2]), count: 1 }, DataType::Int32Array),
        Ok(vec![1])
    );
    assert_eq!(
        array_items(&RawArray { items: Some(vec![1, 2]), count: u32::MAX }, DataType::Int32Array),
        Ok(vec![1, 2])
    );
    assert_eq!(text_of(&None), Err(PropertyValueFromFfiError::NullPointer(DataType::String)));
    assert_eq!(text_of(&Some(b"x".to_vec())), Ok("x".to_string()));
    assert_eq!(text_of(&Some(vec![])), Ok(String::new()));
}

#[test]
fn properties_to_write() {
    let prop = make_bool_property(true);
    assert_eq!((prop.type_, prop.value.boolean), (0, true));
    assert_eq!(PropertyValue::from_ffi(&prop), Ok(PropertyValue::Boolean(true)));
    let prop = make_int32_property(-4);
    assert_eq!((prop.type_, prop.value.int32), (1, -4));
    assert_eq!(PropertyValue::from_ffi(&prop), Ok(PropertyValue::Int32(-4)));
    let prop = make_float64_property(2.5f64.to_bits());
    assert_eq!((prop.type_, f64::from_bits(prop.value.float64)), (2, 2.5));
    assert_eq!(PropertyValue::from_ffi(&prop), Ok(PropertyValue::Float64(2.5f64.to_bits())));
}

// ---- subscribing through a session ----

#[test]
fn a_session_subscribes_once() {
    let (mut session, _slot) = session();
    assert!(!session.is_subscribed());
    assert_eq!(session.begin_subscription(), Ok(()));
    assert!(session.is_subscribed());
    assert_eq!(session.begin_subscription(), Err(SdkError::AlreadySubscribed));
    assert_eq!(session.begin_subscription(), Err(SdkError::AlreadySubscribed));
    assert!(session.is_subscribed());
    assert!(session.is_open());
    session.end_subscription();
    assert!(!session.is_subscribed());
    assert_eq!(session.begin_subscription(), Ok(()));
    session.end_subscription();
    session.end_subscription();
    assert!(!session.is_subscribed());
}

// ---- connecting and waiting ----

#[test]
fn slot_is_cleared_before_the_disconnect_and_disconnect_is_ordered_once() {
    let mut slot: SessionSlot<&str> = SessionSlot::new();
    assert_eq!(slot.install("stale"), None);
    let session = Session::connect(&mut slot, "fresh");
    assert_eq!(slot.destination(), Some(&"fresh"));
    assert!(session.is_open());
    let mut session = session.connected(0).unwrap();
    assert!(session.disconnect(&mut slot));
    assert_eq!(slot.destination(), None);
    assert!(!session.is_open());
    assert!(!session.disconnect(&mut slot));
    assert_eq!(slot.destination(), None);
    let refused = Session::connect(&mut slot, "again").connected(1);
    assert!(matches!(refused, Err(SdkError::NotConnected)));
}

fn change(state: u32) -> Received {
    Received::Change(SessionStateChange { state, details: details() })
}

fn round(now_nanos: u128, received: Received) -> WaitRound {
    WaitRound { now_nanos, received }
}

#[test]
fn wait_steps() {
    let not_connected = WaitStep::Done(Err(SdkError::NotConnected));
    let wait = ConnectionWait::start(1_000, 500);
    assert_eq!(wait.deadline_nanos(), 1_500);
    assert_eq!(wait.begin_round(1_000), WaitStep::Block(500));
    assert_eq!(wait.begin_round(1_300), WaitStep::Block(200));
    assert_eq!(wait.begin_round(1_499), WaitStep::Block(1));
    assert_eq!(wait.begin_round(1_500), not_connected);
    assert_eq!(wait.begin_round(9_999), not_connected);
    assert_eq!(ConnectionWait::start(7, 0).begin_round(7), not_connected);
    assert_eq!(ConnectionWait::start(u128::MAX - 1, 5).deadline_nanos(), u128::MAX);
    assert_eq!(ConnectionWait::start(0, u128::MAX).begin_round(1), WaitStep::Block(u128::MAX - 1));
    assert_eq!(wait.end_round(&change(6)), WaitStep::Done(Ok(SessionDetails::from_ffi(&details()))));
    assert_eq!(wait.end_round(&change(2)), WaitStep::Again);
    for state in [0, 1, 3, 4, 5, 7, 999] {
        assert_eq!(wait.end_round(&change(state)), not_connected);
    }
    assert_eq!(wait.end_round(&Received::Timeout), not_connected);
    assert_eq!(wait.end_round(&Received::Disconnected), not_connected);
}

#[test]
fn wait_ends_by_the_deadline_without_connected() {
    let (session, _slot) = session();
    let failed = Some(Err(SdkError::NotConnected));
    // the service keeps connecting until the time is up
    let rounds = vec![
        round(1_000, change(2)),
        round(1_200, change(2)),
        round(1_400, change(2)),
        round(1_500, change(6)),
    ];
    assert_eq!(session.wait_for_connection(1_000, 500, &rounds), failed);
    assert_eq!(session.wait_for_connection(1_000, 500, &rounds[..3].to_vec()), None);
    assert_eq!(session.wait_for_connection(0, 500, &vec![round(0, Received::Timeout)]), failed);
    assert_eq!(session.wait_for_connection(0, 0, &vec![round(0, change(6))]), failed);
    assert_eq!(
        session.wait_for_connection(0, 500, &vec![round(0, change(2)), round(100, change(3))]),
        failed
    );
    assert_eq!(
        session.wait_for_connection(
            0,
            500,
            &vec![round(0, change(2)), round(100, Received::Disconnected)]
        ),
        failed
    );
    assert_eq!(session.wait_for_connection(0, 500, &vec![]), None);
}

#[test]
fn wait_returns_the_details_that_came_with_connected() {
    let (session, _slot) = session();
    let rounds = vec![round(0, change(2)), round(200, change(6)), round(900, change(2))];
    assert_eq!(
        session.wait_for_connection(0, 500, &rounds),
        Some(Ok(SessionDetails::from_ffi(&details())))
    );
    // a terminal state ends the wait for good, even if Connected follows
    let rounds = vec![round(0, change(4)), round(300, change(6))];
    assert_eq!(session.wait_for_connection(0, 500, &rounds), Some(Err(SdkError::NotConnected)));
}
