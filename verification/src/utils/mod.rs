pub mod converters;
pub mod formatters;
pub mod json;

pub use converters::hex_to_rgb;
pub use formatters::{
    format_response, make_led_string, make_scan_string, make_stop_string, make_update_string,
};
