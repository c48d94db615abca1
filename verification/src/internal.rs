//! Helpers shared by the conversion modules.
pub mod c_utils;
pub mod cue_property_value_holder;

pub use c_utils::{c_string_bytes, try_c_char_ptr_to_str};
pub use cue_property_value_holder::CuePropertyValueHolder;
