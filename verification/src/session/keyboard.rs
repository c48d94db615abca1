//! Named constants for the LED identifiers of the keys of a keyboard. They
//! can be used as the `id` of an [`LedColor`](super::led::LedColor).
use vstd::prelude::*;

verus! {

pub const ESCAPE: u32 = 1;

pub const F1: u32 = 2;

pub const F2: u32 = 3;

pub const F3: u32 = 4;

pub const F4: u32 = 5;

pub const F5: u32 = 6;

pub const F6: u32 = 7;

pub const F7: u32 = 8;

pub const F8: u32 = 9;

pub const F9: u32 = 10;

pub const F10: u32 = 11;

pub const F11: u32 = 12;

pub const F12: u32 = 13;

pub const GRAVE_ACCENT: u32 = 14;

pub const KEY_1: u32 = 15;

pub const KEY_2: u32 = 16;

pub const KEY_3: u32 = 17;

pub const KEY_4: u32 = 18;

pub const KEY_5: u32 = 19;

pub const KEY_6: u32 = 20;

pub const KEY_7: u32 = 21;

pub const KEY_8: u32 = 22;

pub const KEY_9: u32 = 23;

pub const KEY_0: u32 = 24;

pub const MINUS: u32 = 25;

pub const EQUALS: u32 = 26;

pub const BACKSPACE: u32 = 27;

pub const TAB: u32 = 28;

pub const Q: u32 = 29;

pub const W: u32 = 30;

pub const E: u32 = 31;

pub const R: u32 = 32;

pub const T: u32 = 33;

pub const Y: u32 = 34;

pub const U: u32 = 35;

pub const I: u32 = 36;

pub const O: u32 = 37;

pub const P: u32 = 38;

pub const BRACKET_LEFT: u32 = 39;

pub const BRACKET_RIGHT: u32 = 40;

pub const CAPS_LOCK: u32 = 41;

pub const A: u32 = 42;

pub const S: u32 = 43;

pub const D: u32 = 44;

pub const F: u32 = 45;

pub const G: u32 = 46;

pub const H: u32 = 47;

pub const J: u32 = 48;

pub const K: u32 = 49;

pub const L: u32 = 50;

pub const SEMICOLON: u32 = 51;

pub const APOSTROPHE: u32 = 52;

pub const BACKSLASH: u32 = 53;

pub const ENTER: u32 = 54;

pub const LEFT_SHIFT: u32 = 55;

pub const NON_US_BACKSLASH: u32 = 56;

pub const Z: u32 = 57;

pub const X: u32 = 58;

pub const C: u32 = 59;

pub const V: u32 = 60;

pub const B: u32 = 61;

pub const N: u32 = 62;

pub const M: u32 = 63;

pub const COMMA: u32 = 64;

pub const PERIOD: u32 = 65;

pub const SLASH: u32 = 66;

pub const RIGHT_SHIFT: u32 = 67;

pub const LEFT_CTRL: u32 = 68;

pub const LEFT_GUI: u32 = 69;

pub const LEFT_ALT: u32 = 70;

pub const SPACE: u32 = 71;

pub const RIGHT_ALT: u32 = 72;

pub const RIGHT_GUI: u32 = 73;

pub const APPLICATION: u32 = 74;

pub const RIGHT_CTRL: u32 = 75;

pub const LED_PROGRAMMING: u32 = 76;

pub const LANG1: u32 = 77;

pub const LANG2: u32 = 78;

pub const INTERNATIONAL1: u32 = 79;

pub const INTERNATIONAL2: u32 = 80;

pub const INTERNATIONAL3: u32 = 81;

pub const INTERNATIONAL4: u32 = 82;

pub const INTERNATIONAL5: u32 = 83;

pub const PRINT_SCREEN: u32 = 84;

pub const SCROLL_LOCK: u32 = 85;

pub const PAUSE_BREAK: u32 = 86;

pub const INSERT: u32 = 87;

pub const HOME: u32 = 88;

pub const PAGE_UP: u32 = 89;

pub const DELETE: u32 = 90;

pub const END: u32 = 91;

pub const PAGE_DOWN: u32 = 92;

pub const UP_ARROW: u32 = 93;

pub const LEFT_ARROW: u32 = 94;

pub const DOWN_ARROW: u32 = 95;

pub const RIGHT_ARROW: u32 = 96;

pub const NON_US_TILDE: u32 = 97;

pub const BRIGHTNESS: u32 = 98;

pub const WIN_LOCK: u32 = 99;

pub const MUTE: u32 = 100;

pub const STOP: u32 = 101;

pub const SCAN_PREVIOUS_TRACK: u32 = 102;

pub const PLAY_PAUSE: u32 = 103;

pub const SCAN_NEXT_TRACK: u32 = 104;

pub const NUM_LOCK: u32 = 105;

pub const KEYPAD_SLASH: u32 = 106;

pub const KEYPAD_ASTERISK: u32 = 107;

pub const KEYPAD_MINUS: u32 = 108;

pub const KEYPAD_7: u32 = 109;

pub const KEYPAD_8: u32 = 110;

pub const KEYPAD_9: u32 = 111;

pub const KEYPAD_PLUS: u32 = 112;

pub const KEYPAD_4: u32 = 113;

pub const KEYPAD_5: u32 = 114;

pub const KEYPAD_6: u32 = 115;

pub const KEYPAD_1: u32 = 116;

pub const KEYPAD_2: u32 = 117;

pub const KEYPAD_3: u32 = 118;

pub const KEYPAD_COMMA: u32 = 119;

pub const KEYPAD_ENTER: u32 = 120;

pub const KEYPAD_0: u32 = 121;

pub const KEYPAD_PERIOD_DELETE: u32 = 122;

pub const VOLUME_UP: u32 = 123;

pub const VOLUME_DOWN: u32 = 124;

pub const MR: u32 = 125;

pub const M1: u32 = 126;

pub const M2: u32 = 127;

pub const M3: u32 = 128;

pub const FN: u32 = 129;

} // verus!
