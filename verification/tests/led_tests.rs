use cue_sdk::device::{
    get_led_colors, get_leds_for_device_index, led_color_requests, CueDevice,
    CueDeviceFromDeviceInfoAndIndexError, CueDeviceInfo, GetLedColorsError, GetLedPositionsError,
    GetLedsError, GetPropertyError,
};
use cue_sdk::errors::CueSdkError;
use cue_sdk::led::{CheckColorError, CueLed, LedColor, LedColorFromFfiError, LedId, LedPosition};
use cue_sdk::native::{
    RawChannelsInfo, RawDeviceInfo, RawLedColor, RawLedPosition, RawLedPositions,
};
use cue_sdk::property::{BooleanProperty, BooleanPropertyKey, Int32Property, Int32PropertyKey};

fn position(led_id: u32) -> RawLedPosition {
    RawLedPosition {
        led_id,
        top: 1.5f64.to_bits(),
        left: 2.25f64.to_bits(),
        height: 10.0f64.to_bits(),
        width: 12.0f64.to_bits(),
    }
}

fn led(device_index: u32, led_id: u32) -> CueLed {
    CueLed::with_device_data_from_ffi(device_index, &position(led_id))
}

fn raw(led_id: u32, r: i32, g: i32, b: i32) -> RawLedColor {
    RawLedColor { led_id, r, g, b }
}

#[test]
fn led_from_position_record() {
    let led = led(3, 14);
    assert_eq!(
        led,
        CueLed {
            id: LedId(14),
            position: LedPosition {
                top: 1.5f64.to_bits(),
                left: 2.25f64.to_bits(),
                height: 10.0f64.to_bits(),
                width: 12.0f64.to_bits(),
            },
            device_index: 3,
            last_checked_color: None,
            last_buffed_color: None,
        }
    );
    assert_eq!(led.device_index(), 3);
    assert_eq!(f64::from_bits(led.position.left), 2.25);
}

#[test]
fn color_from_ffi_validates_the_range() {
    assert_eq!(
        LedColor::from_ffi(&raw(1, 0, 128, 255)),
        Ok(LedColor { red: 0, green: 128, blue: 255 })
    );
    assert_eq!(LedColor::from_ffi(&raw(1, 256, 0, 0)), Err(LedColorFromFfiError(256, 0, 0)));
    assert_eq!(LedColor::from_ffi(&raw(1, 0, 256, 0)), Err(LedColorFromFfiError(0, 0, 256)));
    assert_eq!(LedColor::from_ffi(&raw(1, 0, 0, 256)), Err(LedColorFromFfiError(0, 256, 0)));
    assert_eq!(LedColor::from_ffi(&raw(1, -1, -1, -1)), Err(LedColorFromFfiError(-1, -1, -1)));
    assert_eq!(
        LedColor::from_ffi(&raw(1, i32::MIN, 7, i32::MAX)),
        Err(LedColorFromFfiError(i32::MIN, i32::MAX, 7))
    );
}

#[test]
fn colors_round_trip_through_the_native_record() {
    let updates = [
        (LedId(1), LedColor { red: 0, green: 0, blue: 0 }),
        (LedId(170), LedColor { red: 255, green: 255, blue: 255 }),
        (LedId(u32::MAX), LedColor { red: 200, green: 20, blue: 165 }),
        (LedId(1), LedColor { red: 1, green: 2, blue: 3 }),
    ];
    for (id, color) in updates {
        let native = color.to_ffi(id);
        assert_eq!(
            native,
            RawLedColor { led_id: id.0, r: color.red as i32, g: color.green as i32, b: color.blue as i32 }
        );
        assert_eq!(LedId(native.led_id), id);
        assert_eq!(LedColor::from_ffi(&native), Ok(color));
    }
    assert_eq!(
        LedColor { red: 200, green: 20, blue: 165 }.to_ffi(LedId(9)),
        RawLedColor { led_id: 9, r: 200, g: 20, b: 165 }
    );
}

#[test]
fn check_color_by_cases() {
    let mut led = led(0, 5);
    assert_eq!(led.color_request(), raw(5, -1, -1, -1));
    assert_eq!(led.check_color(true, &raw(5, 1, 2, 3), 0), Ok(()));
    assert_eq!(led.last_checked_color, Some(LedColor { red: 1, green: 2, blue: 3 }));
    assert_eq!(
        led.check_color(true, &raw(5, 1, 2, 300), 0),
        Err(CheckColorError::LedColorError(LedColorFromFfiError(1, 300, 2)))
    );
    assert_eq!(led.last_checked_color, Some(LedColor { red: 1, green: 2, blue: 3 }));
    assert_eq!(
        led.check_color(false, &raw(5, 9, 9, 9), 1),
        Err(CheckColorError::SdkError(Some(CueSdkError::ServerNotFound)))
    );
    assert_eq!(led.last_checked_color, None);
    assert_eq!(led.check_color(false, &raw(5, 9, 9, 9), 0), Err(CheckColorError::SdkError(None)));
}

#[test]
fn update_color_buffer_by_cases() {
    let mut led = led(0, 5);
    let color = LedColor { red: 200, green: 20, blue: 165 };
    assert_eq!(led.color_buffer_request(color), raw(5, 200, 20, 165));
    assert_eq!(led.update_color_buffer(color, false, 2), Err(Some(CueSdkError::NoControl)));
    assert_eq!(led.last_buffed_color, None);
    assert_eq!(led.update_color_buffer(color, true, 2), Ok(()));
    assert_eq!(led.last_buffed_color, Some(color));
    assert_eq!(led.last_checked_color, None);
}

#[test]
fn led_positions_by_shape() {
    assert_eq!(
        get_leds_for_device_index(1, None, 1),
        Err(GetLedPositionsError::SdkFailure(Some(CueSdkError::ServerNotFound)))
    );
    assert_eq!(get_leds_for_device_index(1, None, 0), Err(GetLedPositionsError::SdkFailure(None)));
    for count in [-1, -77, i32::MIN] {
        for pointer in [None, Some(vec![position(1)])] {
            let positions = RawLedPositions { number_of_led: count, led_position: pointer };
            assert_eq!(
                get_leds_for_device_index(1, Some(&positions), 1),
                Err(GetLedPositionsError::InvalidLedsCount(count))
            );
        }
    }
    for pointer in [None, Some(vec![position(1)])] {
        let positions = RawLedPositions { number_of_led: 0, led_position: pointer };
        assert_eq!(get_leds_for_device_index(1, Some(&positions), 1), Ok(vec![]));
    }
    let positions = RawLedPositions { number_of_led: 2, led_position: None };
    assert_eq!(
        get_leds_for_device_index(1, Some(&positions), 1),
        Err(GetLedPositionsError::NullLedPositionsPointer)
    );
    let positions =
        RawLedPositions { number_of_led: 2, led_position: Some(vec![position(4), position(2)]) };
    assert_eq!(get_leds_for_device_index(6, Some(&positions), 1), Ok(vec![led(6, 4), led(6, 2)]));
    let positions =
        RawLedPositions { number_of_led: 1, led_position: Some(vec![position(4), position(2)]) };
    assert_eq!(get_leds_for_device_index(6, Some(&positions), 1), Ok(vec![led(6, 4)]));
}

#[test]
fn led_colors_are_taken_in_partially() {
    let mut leds = vec![led(0, 10), led(0, 11), led(0, 12), led(0, 13)];
    assert_eq!(
        led_color_requests(&leds),
        vec![raw(10, -1, -1, -1), raw(11, -1, -1, -1), raw(12, -1, -1, -1), raw(13, -1, -1, -1)]
    );
    assert_eq!(led_color_requests(&vec![]), vec![]);
    let before = leds.clone();
    assert_eq!(
        get_led_colors(&mut leds, false, &vec![raw(10, 1, 1, 1)], 4),
        Err(GetLedColorsError::SdkFailure(Some(CueSdkError::IncompatibleProtocol)))
    );
    assert_eq!(leds, before);
    let answer = vec![raw(10, 1, 2, 3), raw(11, -1, 2, 3), raw(12, 4, 5, 6), raw(13, 0, 0, 999)];
    assert_eq!(
        get_led_colors(&mut leds, true, &answer, 0),
        Err(GetLedColorsError::InvalidLedColorValues(vec![
            LedColorFromFfiError(-1, 3, 2),
            LedColorFromFfiError(0, 999, 0),
        ]))
    );
    assert_eq!(leds[0].last_checked_color, Some(LedColor { red: 1, green: 2, blue: 3 }));
    assert_eq!(leds[1], before[1]);
    assert_eq!(leds[2].last_checked_color, Some(LedColor { red: 4, green: 5, blue: 6 }));
    assert_eq!(leds[3], before[3]);
    let answer = vec![raw(10, 9, 9, 9), raw(11, 8, 8, 8)];
    assert_eq!(get_led_colors(&mut leds, true, &answer, 0), Ok(()));
    assert_eq!(leds[0].last_checked_color, Some(LedColor { red: 9, green: 9, blue: 9 }));
    assert_eq!(leds[1].last_checked_color, Some(LedColor { red: 8, green: 8, blue: 8 }));
    assert_eq!(leds[2].last_checked_color, Some(LedColor { red: 4, green: 5, blue: 6 }));
    assert_eq!(leds[3], before[3]);
}

fn device(property_lookup: bool) -> CueDevice {
    let info = RawDeviceInfo {
        type_: 3,
        model: Some(b"VOID".to_vec()),
        physical_layout: 0,
        logical_layout: 0,
        caps_mask: if property_lookup { 3 } else { 1 },
        leds_count: 2,
        channels: RawChannelsInfo { channels_count: 0, channels: None },
        device_id: [0u8; 128],
    };
    let positions =
        RawLedPositions { number_of_led: 2, led_position: Some(vec![position(1), position(2)]) };
    CueDevice::from_device_info_and_index(
        4,
        CueDeviceInfo::from_ffi(Some(&info)).unwrap(),
        Some(&positions),
        0,
    )
    .unwrap()
}

#[test]
fn device_from_info_and_index() {
    let device = device(true);
    assert_eq!(device.device_index, 4);
    assert_eq!(device.leds, vec![led(4, 1), led(4, 2)]);
    assert_eq!(device.device_info.model, "VOID");
    assert!(device.device_info.capabilities.property_lookup);
    let info = device.device_info.clone();
    assert_eq!(
        CueDevice::from_device_info_and_index(4, info.clone(), None, 2),
        Err(CueDeviceFromDeviceInfoAndIndexError(GetLedPositionsError::SdkFailure(Some(
            CueSdkError::NoControl
        ))))
    );
    let positions = RawLedPositions { number_of_led: -2, led_position: None };
    assert_eq!(
        CueDevice::from_device_info_and_index(4, info, Some(&positions), 2),
        Err(CueDeviceFromDeviceInfoAndIndexError(GetLedPositionsError::InvalidLedsCount(-2)))
    );
}

#[test]
fn device_refreshes_the_colors_of_its_leds() {
    let mut device = device(true);
    assert_eq!(
        device.refresh_leds_colors(true, &vec![raw(1, 5, 6, 7), raw(2, 5, 6, 700)], 0),
        Err(GetLedsError::GetColorsError(GetLedColorsError::InvalidLedColorValues(vec![
            LedColorFromFfiError(5, 700, 6)
        ])))
    );
    assert_eq!(device.leds[0].last_checked_color, Some(LedColor { red: 5, green: 6, blue: 7 }));
    assert_eq!(device.leds[1].last_checked_color, None);
    assert_eq!(
        device.refresh_leds_colors(false, &vec![], 3),
        Err(GetLedsError::GetColorsError(GetLedColorsError::SdkFailure(Some(
            CueSdkError::ProtocolHandshakeMissing
        ))))
    );
    assert_eq!(device.refresh_leds_colors(true, &vec![raw(1, 0, 0, 0), raw(2, 1, 1, 1)], 0), Ok(()));
    assert_eq!(device.leds[1].last_checked_color, Some(LedColor { red: 1, green: 1, blue: 1 }));
}

#[test]
fn properties_need_lookup_support() {
    let plain = device(false);
    assert_eq!(
        plain.get_bool_property(BooleanPropertyKey::HeadsetSidetoneEnabled),
        Err(GetPropertyError::NoPropertyLookupSupport {
            property_type: "Bool".to_string(),
            property_key_name: "HeadsetSidetoneEnabled".to_string(),
            property_key_value: 0x1002,
        })
    );
    assert_eq!(
        plain.get_int32_property(Int32PropertyKey::HeadsetEqualizerPreset),
        Err(GetPropertyError::NoPropertyLookupSupport {
            property_type: "Int32".to_string(),
            property_key_name: "HeadsetEqualizerPreset".to_string(),
            property_key_value: 0x2000,
        })
    );
    let headset = device(true);
    assert_eq!(headset.get_bool_property(BooleanPropertyKey::HeadsetMicEnabled), Ok(()));
    assert_eq!(headset.get_int32_property(Int32PropertyKey::HeadsetEqualizerPreset), Ok(()));
    assert_eq!(
        headset.bool_property_read(BooleanPropertyKey::HeadsetMicEnabled, true, true, 0),
        Ok(BooleanProperty { device_index: 4, key: BooleanPropertyKey::HeadsetMicEnabled, last_value: true })
    );
    assert_eq!(
        headset.bool_property_read(BooleanPropertyKey::HeadsetMicEnabled, false, true, 5),
        Err(GetPropertyError::SdkErr(Some(CueSdkError::InvalidArguments)))
    );
    assert_eq!(
        headset.int32_property_read(Int32PropertyKey::HeadsetEqualizerPreset, true, 3, 0),
        Ok(Int32Property { device_index: 4, key: Int32PropertyKey::HeadsetEqualizerPreset, last_value: 3 })
    );
    assert_eq!(
        headset.int32_property_read(Int32PropertyKey::HeadsetEqualizerPreset, false, 3, 9),
        Err(GetPropertyError::SdkErr(None))
    );
}
