use cue_sdk::native;
use cue_sdk::session::device;
use cue_sdk::session::keyboard;
use cue_sdk::session::property;
use cue_sdk_sys as ffi;

#[test]
fn codes_are_those_of_the_bindings() {
    assert_eq!(native::CE_SUCCESS, ffi::CorsairError_CE_Success);
    assert_eq!(native::CE_NOT_CONNECTED, ffi::CorsairError_CE_NotConnected);
    assert_eq!(native::CE_NO_CONTROL, ffi::CorsairError_CE_NoControl);
    assert_eq!(native::CE_INCOMPATIBLE_PROTOCOL, ffi::CorsairError_CE_IncompatibleProtocol);
    assert_eq!(native::CE_INVALID_ARGUMENTS, ffi::CorsairError_CE_InvalidArguments);
    assert_eq!(native::CE_INVALID_OPERATION, ffi::CorsairError_CE_InvalidOperation);
    assert_eq!(native::CE_DEVICE_NOT_FOUND, ffi::CorsairError_CE_DeviceNotFound);
    assert_eq!(native::CE_NOT_ALLOWED, ffi::CorsairError_CE_NotAllowed);
    assert_eq!(native::CSS_INVALID, ffi::CorsairSessionState_CSS_Invalid);
    assert_eq!(native::CSS_CLOSED, ffi::CorsairSessionState_CSS_Closed);
    assert_eq!(native::CSS_CONNECTING, ffi::CorsairSessionState_CSS_Connecting);
    assert_eq!(native::CSS_TIMEOUT, ffi::CorsairSessionState_CSS_Timeout);
    assert_eq!(native::CSS_CONNECTION_REFUSED, ffi::CorsairSessionState_CSS_ConnectionRefused);
    assert_eq!(native::CSS_CONNECTION_LOST, ffi::CorsairSessionState_CSS_ConnectionLost);
    assert_eq!(native::CSS_CONNECTED, ffi::CorsairSessionState_CSS_Connected);
    assert_eq!(native::CEI_INVALID, ffi::CorsairEventId_CEI_Invalid);
    assert_eq!(native::CEI_DEVICE_CONNECTION_STATUS_CHANGED_EVENT, ffi::CorsairEventId_CEI_DeviceConnectionStatusChangedEvent);
    assert_eq!(native::CEI_KEY_EVENT, ffi::CorsairEventId_CEI_KeyEvent);
    assert_eq!(native::CT_BOOLEAN, ffi::CorsairDataType_CT_Boolean);
    assert_eq!(native::CT_INT32, ffi::CorsairDataType_CT_Int32);
    assert_eq!(native::CT_FLOAT64, ffi::CorsairDataType_CT_Float64);
    assert_eq!(native::CT_STRING, ffi::CorsairDataType_CT_String);
    assert_eq!(native::CT_BOOLEAN_ARRAY, ffi::CorsairDataType_CT_Boolean_Array);
    assert_eq!(native::CT_INT32_ARRAY, ffi::CorsairDataType_CT_Int32_Array);
    assert_eq!(native::CT_FLOAT64_ARRAY, ffi::CorsairDataType_CT_Float64_Array);
    assert_eq!(native::CT_STRING_ARRAY, ffi::CorsairDataType_CT_String_Array);
    assert_eq!(native::CORSAIR_STRING_SIZE as u32, ffi::CORSAIR_STRING_SIZE_M);
    assert_eq!(native::CORSAIR_DEVICE_COUNT_MAX as u32, ffi::CORSAIR_DEVICE_COUNT_MAX);
    assert_eq!(native::CORSAIR_DEVICE_LEDCOUNT_MAX as u32, ffi::CORSAIR_DEVICE_LEDCOUNT_MAX);
}

#[test]
fn masks_are_those_of_the_bindings() {
    assert_eq!(device::DEVICE_TYPE_UNKNOWN, ffi::CorsairDeviceType_CDT_Unknown);
    assert_eq!(device::DEVICE_TYPE_KEYBOARD, ffi::CorsairDeviceType_CDT_Keyboard);
    assert_eq!(device::DEVICE_TYPE_MOUSE, ffi::CorsairDeviceType_CDT_Mouse);
    assert_eq!(device::DEVICE_TYPE_MOUSEMAT, ffi::CorsairDeviceType_CDT_Mousemat);
    assert_eq!(device::DEVICE_TYPE_HEADSET, ffi::CorsairDeviceType_CDT_Headset);
    assert_eq!(device::DEVICE_TYPE_HEADSET_STAND, ffi::CorsairDeviceType_CDT_HeadsetStand);
    assert_eq!(device::DEVICE_TYPE_FAN_LED_CONTROLLER, ffi::CorsairDeviceType_CDT_FanLedController);
    assert_eq!(device::DEVICE_TYPE_LED_CONTROLLER, ffi::CorsairDeviceType_CDT_LedController);
    assert_eq!(device::DEVICE_TYPE_MEMORY_MODULE, ffi::CorsairDeviceType_CDT_MemoryModule);
    assert_eq!(device::DEVICE_TYPE_COOLER, ffi::CorsairDeviceType_CDT_Cooler);
    assert_eq!(device::DEVICE_TYPE_MOTHERBOARD, ffi::CorsairDeviceType_CDT_Motherboard);
    assert_eq!(device::DEVICE_TYPE_GRAPHICS_CARD, ffi::CorsairDeviceType_CDT_GraphicsCard);
    assert_eq!(device::DEVICE_TYPE_TOUCHBAR, ffi::CorsairDeviceType_CDT_Touchbar);
    assert_eq!(device::DEVICE_TYPE_GAME_CONTROLLER, ffi::CorsairDeviceType_CDT_GameController);
    assert_eq!(device::DEVICE_TYPE_ALL, ffi::CorsairDeviceType_CDT_All);
    assert_eq!(property::PROPERTY_FLAG_CAN_READ, ffi::CorsairPropertyFlag_CPF_CanRead);
    assert_eq!(property::PROPERTY_FLAG_CAN_WRITE, ffi::CorsairPropertyFlag_CPF_CanWrite);
    assert_eq!(property::PROPERTY_FLAG_INDEXED, ffi::CorsairPropertyFlag_CPF_Indexed);
    assert_eq!(property::PROPERTY_FLAG_ALL, ffi::CorsairPropertyFlag_CPF_CanRead | ffi::CorsairPropertyFlag_CPF_CanWrite | ffi::CorsairPropertyFlag_CPF_Indexed);
}

#[test]
fn keyboard_leds_are_those_of_the_bindings() {
    assert_eq!(keyboard::ESCAPE, ffi::CorsairLedId_Keyboard_CLK_Escape);
    assert_eq!(keyboard::F1, ffi::CorsairLedId_Keyboard_CLK_F1);
    assert_eq!(keyboard::F2, ffi::CorsairLedId_Keyboard_CLK_F2);
    assert_eq!(keyboard::F3, ffi::CorsairLedId_Keyboard_CLK_F3);
    assert_eq!(keyboard::F4, ffi::CorsairLedId_Keyboard_CLK_F4);
    assert_eq!(keyboard::F5, ffi::CorsairLedId_Keyboard_CLK_F5);
    assert_eq!(keyboard::F6, ffi::CorsairLedId_Keyboard_CLK_F6);
    assert_eq!(keyboard::F7, ffi::CorsairLedId_Keyboard_CLK_F7);
    assert_eq!(keyboard::F8, ffi::CorsairLedId_Keyboard_CLK_F8);
    assert_eq!(keyboard::F9, ffi::CorsairLedId_Keyboard_CLK_F9);
    assert_eq!(keyboard::F10, ffi::CorsairLedId_Keyboard_CLK_F10);
    assert_eq!(keyboard::F11, ffi::CorsairLedId_Keyboard_CLK_F11);
    assert_eq!(keyboard::F12, ffi::CorsairLedId_Keyboard_CLK_F12);
    assert_eq!(keyboard::GRAVE_ACCENT, ffi::CorsairLedId_Keyboard_CLK_GraveAccentAndTilde);
    assert_eq!(keyboard::KEY_1, ffi::CorsairLedId_Keyboard_CLK_1);
    assert_eq!(keyboard::KEY_2, ffi::CorsairLedId_Keyboard_CLK_2);
    assert_eq!(keyboard::KEY_3, ffi::CorsairLedId_Keyboard_CLK_3);
    assert_eq!(keyboard::KEY_4, ffi::CorsairLedId_Keyboard_CLK_4);
    assert_eq!(keyboard::KEY_5, ffi::CorsairLedId_Keyboard_CLK_5);
    assert_eq!(keyboard::KEY_6, ffi::CorsairLedId_Keyboard_CLK_6);
    assert_eq!(keyboard::KEY_7, ffi::CorsairLedId_Keyboard_CLK_7);
    assert_eq!(keyboard::KEY_8, ffi::CorsairLedId_Keyboard_CLK_8);
    assert_eq!(keyboard::KEY_9, ffi::CorsairLedId_Keyboard_CLK_9);
    assert_eq!(keyboard::KEY_0, ffi::CorsairLedId_Keyboard_CLK_0);
    assert_eq!(keyboard::MINUS, ffi::CorsairLedId_Keyboard_CLK_MinusAndUnderscore);
    assert_eq!(keyboard::EQUALS, ffi::CorsairLedId_Keyboard_CLK_EqualsAndPlus);
    assert_eq!(keyboard::BACKSPACE, ffi::CorsairLedId_Keyboard_CLK_Backspace);
    assert_eq!(keyboard::TAB, ffi::CorsairLedId_Keyboard_CLK_Tab);
    assert_eq!(keyboard::Q, ffi::CorsairLedId_Keyboard_CLK_Q);
    assert_eq!(keyboard::W, ffi::CorsairLedId_Keyboard_CLK_W);
    assert_eq!(keyboard::E, ffi::CorsairLedId_Keyboard_CLK_E);
    assert_eq!(keyboard::R, ffi::CorsairLedId_Keyboard_CLK_R);
    assert_eq!(keyboard::T, ffi::CorsairLedId_Keyboard_CLK_T);
    assert_eq!(keyboard::Y, ffi::CorsairLedId_Keyboard_CLK_Y);
    assert_eq!(keyboard::U, ffi::CorsairLedId_Keyboard_CLK_U);
    assert_eq!(keyboard::I, ffi::CorsairLedId_Keyboard_CLK_I);
    assert_eq!(keyboard::O, ffi::CorsairLedId_Keyboard_CLK_O);
    assert_eq!(keyboard::P, ffi::CorsairLedId_Keyboard_CLK_P);
    assert_eq!(keyboard::BRACKET_LEFT, ffi::CorsairLedId_Keyboard_CLK_BracketLeft);
    assert_eq!(keyboard::BRACKET_RIGHT, ffi::CorsairLedId_Keyboard_CLK_BracketRight);
    assert_eq!(keyboard::CAPS_LOCK, ffi::CorsairLedId_Keyboard_CLK_CapsLock);
    assert_eq!(keyboard::A, ffi::CorsairLedId_Keyboard_CLK_A);
    assert_eq!(keyboard::S, ffi::CorsairLedId_Keyboard_CLK_S);
    assert_eq!(keyboard::D, ffi::CorsairLedId_Keyboard_CLK_D);
    assert_eq!(keyboard::F, ffi::CorsairLedId_Keyboard_CLK_F);
    assert_eq!(keyboard::G, ffi::CorsairLedId_Keyboard_CLK_G);
    assert_eq!(keyboard::H, ffi::CorsairLedId_Keyboard_CLK_H);
    assert_eq!(keyboard::J, ffi::CorsairLedId_Keyboard_CLK_J);
    assert_eq!(keyboard::K, ffi::CorsairLedId_Keyboard_CLK_K);
    assert_eq!(keyboard::L, ffi::CorsairLedId_Keyboard_CLK_L);
    assert_eq!(keyboard::SEMICOLON, ffi::CorsairLedId_Keyboard_CLK_SemicolonAndColon);
    assert_eq!(keyboard::APOSTROPHE, ffi::CorsairLedId_Keyboard_CLK_ApostropheAndDoubleQuote);
    assert_eq!(keyboard::BACKSLASH, ffi::CorsairLedId_Keyboard_CLK_Backslash);
    assert_eq!(keyboard::ENTER, ffi::CorsairLedId_Keyboard_CLK_Enter);
    assert_eq!(keyboard::LEFT_SHIFT, ffi::CorsairLedId_Keyboard_CLK_LeftShift);
    assert_eq!(keyboard::NON_US_BACKSLASH, ffi::CorsairLedId_Keyboard_CLK_NonUsBackslash);
    assert_eq!(keyboard::Z, ffi::CorsairLedId_Keyboard_CLK_Z);
    assert_eq!(keyboard::X, ffi::CorsairLedId_Keyboard_CLK_X);
    assert_eq!(keyboard::C, ffi::CorsairLedId_Keyboard_CLK_C);
    assert_eq!(keyboard::V, ffi::CorsairLedId_Keyboard_CLK_V);
    assert_eq!(keyboard::B, ffi::CorsairLedId_Keyboard_CLK_B);
    assert_eq!(keyboard::N, ffi::CorsairLedId_Keyboard_CLK_N);
    assert_eq!(keyboard::M, ffi::CorsairLedId_Keyboard_CLK_M);
    assert_eq!(keyboard::COMMA, ffi::CorsairLedId_Keyboard_CLK_CommaAndLessThan);
    assert_eq!(keyboard::PERIOD, ffi::CorsairLedId_Keyboard_CLK_PeriodAndBiggerThan);
    assert_eq!(keyboard::SLASH, ffi::CorsairLedId_Keyboard_CLK_SlashAndQuestionMark);
    assert_eq!(keyboard::RIGHT_SHIFT, ffi::CorsairLedId_Keyboard_CLK_RightShift);
    assert_eq!(keyboard::LEFT_CTRL, ffi::CorsairLedId_Keyboard_CLK_LeftCtrl);
    assert_eq!(keyboard::LEFT_GUI, ffi::CorsairLedId_Keyboard_CLK_LeftGui);
    assert_eq!(keyboard::LEFT_ALT, ffi::CorsairLedId_Keyboard_CLK_LeftAlt);
    assert_eq!(keyboard::SPACE, ffi::CorsairLedId_Keyboard_CLK_Space);
    assert_eq!(keyboard::RIGHT_ALT, ffi::CorsairLedId_Keyboard_CLK_RightAlt);
    assert_eq!(keyboard::RIGHT_GUI, ffi::CorsairLedId_Keyboard_CLK_RightGui);
    assert_eq!(keyboard::APPLICATION, ffi::CorsairLedId_Keyboard_CLK_Application);
    assert_eq!(keyboard::RIGHT_CTRL, ffi::CorsairLedId_Keyboard_CLK_RightCtrl);
    assert_eq!(keyboard::LED_PROGRAMMING, ffi::CorsairLedId_Keyboard_CLK_LedProgramming);
    assert_eq!(keyboard::LANG1, ffi::CorsairLedId_Keyboard_CLK_Lang1);
    assert_eq!(keyboard::LANG2, ffi::CorsairLedId_Keyboard_CLK_Lang2);
    assert_eq!(keyboard::INTERNATIONAL1, ffi::CorsairLedId_Keyboard_CLK_International1);
    assert_eq!(keyboard::INTERNATIONAL2, ffi::CorsairLedId_Keyboard_CLK_International2);
    assert_eq!(keyboard::INTERNATIONAL3, ffi::CorsairLedId_Keyboard_CLK_International3);
    assert_eq!(keyboard::INTERNATIONAL4, ffi::CorsairLedId_Keyboard_CLK_International4);
    assert_eq!(keyboard::INTERNATIONAL5, ffi::CorsairLedId_Keyboard_CLK_International5);
    assert_eq!(keyboard::PRINT_SCREEN, ffi::CorsairLedId_Keyboard_CLK_PrintScreen);
    assert_eq!(keyboard::SCROLL_LOCK, ffi::CorsairLedId_Keyboard_CLK_ScrollLock);
    assert_eq!(keyboard::PAUSE_BREAK, ffi::CorsairLedId_Keyboard_CLK_PauseBreak);
    assert_eq!(keyboard::INSERT, ffi::CorsairLedId_Keyboard_CLK_Insert);
    assert_eq!(keyboard::HOME, ffi::CorsairLedId_Keyboard_CLK_Home);
    assert_eq!(keyboard::PAGE_UP, ffi::CorsairLedId_Keyboard_CLK_PageUp);
    assert_eq!(keyboard::DELETE, ffi::CorsairLedId_Keyboard_CLK_Delete);
    assert_eq!(keyboard::END, ffi::CorsairLedId_Keyboard_CLK_End);
    assert_eq!(keyboard::PAGE_DOWN, ffi::CorsairLedId_Keyboard_CLK_PageDown);
    assert_eq!(keyboard::UP_ARROW, ffi::CorsairLedId_Keyboard_CLK_UpArrow);
    assert_eq!(keyboard::LEFT_ARROW, ffi::CorsairLedId_Keyboard_CLK_LeftArrow);
    assert_eq!(keyboard::DOWN_ARROW, ffi::CorsairLedId_Keyboard_CLK_DownArrow);
    assert_eq!(keyboard::RIGHT_ARROW, ffi::CorsairLedId_Keyboard_CLK_RightArrow);
    assert_eq!(keyboard::NON_US_TILDE, ffi::CorsairLedId_Keyboard_CLK_NonUsTilde);
    assert_eq!(keyboard::BRIGHTNESS, ffi::CorsairLedId_Keyboard_CLK_Brightness);
    assert_eq!(keyboard::WIN_LOCK, ffi::CorsairLedId_Keyboard_CLK_WinLock);
    assert_eq!(keyboard::MUTE, ffi::CorsairLedId_Keyboard_CLK_Mute);
    assert_eq!(keyboard::STOP, ffi::CorsairLedId_Keyboard_CLK_Stop);
    assert_eq!(keyboard::SCAN_PREVIOUS_TRACK, ffi::CorsairLedId_Keyboard_CLK_ScanPreviousTrack);
    assert_eq!(keyboard::PLAY_PAUSE, ffi::CorsairLedId_Keyboard_CLK_PlayPause);
    assert_eq!(keyboard::SCAN_NEXT_TRACK, ffi::CorsairLedId_Keyboard_CLK_ScanNextTrack);
    assert_eq!(keyboard::NUM_LOCK, ffi::CorsairLedId_Keyboard_CLK_NumLock);
    assert_eq!(keyboard::KEYPAD_SLASH, ffi::CorsairLedId_Keyboard_CLK_KeypadSlash);
    assert_eq!(keyboard::KEYPAD_ASTERISK, ffi::CorsairLedId_Keyboard_CLK_KeypadAsterisk);
    assert_eq!(keyboard::KEYPAD_MINUS, ffi::CorsairLedId_Keyboard_CLK_KeypadMinus);
    assert_eq!(keyboard::KEYPAD_7, ffi::CorsairLedId_Keyboard_CLK_Keypad7);
    assert_eq!(keyboard::KEYPAD_8, ffi::CorsairLedId_Keyboard_CLK_Keypad8);
    assert_eq!(keyboard::KEYPAD_9, ffi::CorsairLedId_Keyboard_CLK_Keypad9);
    assert_eq!(keyboard::KEYPAD_PLUS, ffi::CorsairLedId_Keyboard_CLK_KeypadPlus);
    assert_eq!(keyboard::KEYPAD_4, ffi::CorsairLedId_Keyboard_CLK_Keypad4);
    assert_eq!(keyboard::KEYPAD_5, ffi::CorsairLedId_Keyboard_CLK_Keypad5);
    assert_eq!(keyboard::KEYPAD_6, ffi::CorsairLedId_Keyboard_CLK_Keypad6);
    assert_eq!(keyboard::KEYPAD_1, ffi::CorsairLedId_Keyboard_CLK_Keypad1);
    assert_eq!(keyboard::KEYPAD_2, ffi::CorsairLedId_Keyboard_CLK_Keypad2);
    assert_eq!(keyboard::KEYPAD_3, ffi::CorsairLedId_Keyboard_CLK_Keypad3);
    assert_eq!(keyboard::KEYPAD_COMMA, ffi::CorsairLedId_Keyboard_CLK_KeypadComma);
    assert_eq!(keyboard::KEYPAD_ENTER, ffi::CorsairLedId_Keyboard_CLK_KeypadEnter);
    assert_eq!(keyboard::KEYPAD_0, ffi::CorsairLedId_Keyboard_CLK_Keypad0);
    assert_eq!(keyboard::KEYPAD_PERIOD_DELETE, ffi::CorsairLedId_Keyboard_CLK_KeypadPeriodAndDelete);
    assert_eq!(keyboard::VOLUME_UP, ffi::CorsairLedId_Keyboard_CLK_VolumeUp);
    assert_eq!(keyboard::VOLUME_DOWN, ffi::CorsairLedId_Keyboard_CLK_VolumeDown);
    assert_eq!(keyboard::MR, ffi::CorsairLedId_Keyboard_CLK_MR);
    assert_eq!(keyboard::M1, ffi::CorsairLedId_Keyboard_CLK_M1);
    assert_eq!(keyboard::M2, ffi::CorsairLedId_Keyboard_CLK_M2);
    assert_eq!(keyboard::M3, ffi::CorsairLedId_Keyboard_CLK_M3);
    assert_eq!(keyboard::FN, ffi::CorsairLedId_Keyboard_CLK_Fn);
}
