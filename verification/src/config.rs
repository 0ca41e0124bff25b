use vstd::prelude::*;

verus! {

/// Manufacturer string of the USB port that the device is looked for under.
pub const MANUFACTURER: &'static str = "Microsoft";

/// Speed of the serial link, in bits per second.
pub const BAUD_RATE: u32 = 9600;

/// Longest wait for one read from the serial link, in milliseconds.
pub const TIMEOUT: u64 = 1000;

/// The port the HTTP server listens on.
pub const SERVER_PORT: u16 = 5000;

/// Pause between two checks of the connection, in milliseconds.
pub const RECONNECT_INTERVAL: u64 = 5000;

/// Pause after a command has been written and before its response is read,
/// in milliseconds.
pub const COMMAND_SETTLE: u64 = 100;

/// Pause after the serial port has been opened, in milliseconds: the device
/// restarts when the port opens.
pub const OPEN_SETTLE: u64 = 2000;

/// Pause between two reads while the boot output of the device is drained, in
/// milliseconds.
pub const DRAIN_PAUSE: u64 = 100;

/// Pause between the first and the second reading of a scan, in milliseconds.
pub const SCAN_PAUSE: u64 = 100;

} // verus!
