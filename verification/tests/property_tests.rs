use cue_sdk::errors::CueSdkError;
use cue_sdk::property::{
    BooleanProperty, BooleanPropertyKey, Int32Property, Int32PropertyKey, RefreshValueError,
};

#[test]
fn boolean_new() {
    let prop = BooleanProperty::new(5, BooleanPropertyKey::HeadsetMicEnabled, false);
    assert_eq!(
        prop,
        BooleanProperty {
            device_index: 5,
            key: BooleanPropertyKey::HeadsetMicEnabled,
            last_value: false
        }
    )
}

#[test]
fn boolean_from_boolean_property_key_for_u32() {
    for key in [
        BooleanPropertyKey::HeadsetMicEnabled,
        BooleanPropertyKey::HeadsetSurroundSoundEnabled,
        BooleanPropertyKey::HeadsetSidetoneEnabled,
    ] {
        u32::from(key); //ensure this never panics
    }
}

#[test]
fn int32_new() {
    let prop = Int32Property::new(2, Int32PropertyKey::HeadsetEqualizerPreset, 12);
    assert_eq!(
        prop,
        Int32Property {
            device_index: 2,
            key: Int32PropertyKey::HeadsetEqualizerPreset,
            last_value: 12
        }
    )
}

#[test]
fn int32_from_boolean_property_key_for_u32() {
    for key in [Int32PropertyKey::HeadsetEqualizerPreset] {
        u32::from(key); //ensure this never panics
    }
}

#[test]
fn property_keys_have_their_codes_and_names() {
    assert_eq!(u32::from(BooleanPropertyKey::HeadsetMicEnabled), 0x1000);
    assert_eq!(u32::from(BooleanPropertyKey::HeadsetSurroundSoundEnabled), 0x1001);
    assert_eq!(u32::from(BooleanPropertyKey::HeadsetSidetoneEnabled), 0x1002);
    assert_eq!(u32::from(Int32PropertyKey::HeadsetEqualizerPreset), 0x2000);
    assert_eq!(BooleanPropertyKey::HeadsetMicEnabled.name(), "HeadsetMicEnabled");
    assert_eq!(
        BooleanPropertyKey::HeadsetSurroundSoundEnabled.name(),
        "HeadsetSurroundSoundEnabled"
    );
    assert_eq!(BooleanPropertyKey::HeadsetSidetoneEnabled.name(), "HeadsetSidetoneEnabled");
    assert_eq!(Int32PropertyKey::HeadsetEqualizerPreset.name(), "HeadsetEqualizerPreset");
}

#[test]
fn refresh_follows_a_successful_read_only() {
    let mut prop = BooleanProperty::new(5, BooleanPropertyKey::HeadsetMicEnabled, false);
    assert_eq!(prop.refresh_value(true, true, 3), Ok(()));
    assert_eq!(prop.last_value, true);
    assert_eq!(prop.device_index(), 5);
    assert_eq!(
        prop.refresh_value(false, false, 2),
        Err(RefreshValueError(Some(CueSdkError::NoControl)))
    );
    assert_eq!(prop.last_value, true);
    assert_eq!(prop.refresh_value(false, false, 0), Err(RefreshValueError(None)));

    let mut prop = Int32Property::new(2, Int32PropertyKey::HeadsetEqualizerPreset, 12);
    assert_eq!(prop.refresh_value(true, -3, 0), Ok(()));
    assert_eq!(prop.last_value, -3);
    assert_eq!(prop.device_index(), 2);
    assert_eq!(
        prop.refresh_value(false, 99, 5),
        Err(RefreshValueError(Some(CueSdkError::InvalidArguments)))
    );
    assert_eq!(prop.last_value, -3);
}
