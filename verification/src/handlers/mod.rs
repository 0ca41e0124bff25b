pub mod availability;
pub mod led;
pub mod reply;
pub mod scan;
pub mod stop;
pub mod update;

pub use led::{led, led_reply, LedOrder};
pub use reply::{device_answer, is_error_response, not_connected};
pub use scan::{scan, scan_reply, Reading, ScanRound, ScanState, ScanStep};
pub use stop::{stop, stop_reply};
pub use update::{update, update_reply};
