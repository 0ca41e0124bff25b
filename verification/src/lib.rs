//! Protocol core of a web server that relays commands to an Arduino over a
//! serial link.
//!
//! The crate holds the decisions of the server and none of its input or
//! output: how a command is formatted and framed, how a response line is
//! collected from single reads, when a response counts as a failure, when the
//! shared connection has to be given up, and what each endpoint answers. The
//! program around it performs the reads, writes and pauses that these
//! functions ask for and hands back what happened.

pub mod config;
pub mod handlers;
pub mod models;
pub mod serial;
pub mod utils;

pub use config::{BAUD_RATE, MANUFACTURER, RECONNECT_INTERVAL, SERVER_PORT, TIMEOUT};
pub use models::{
    Connection, ErrorResponse, LedParameters, LedRequest, StopRequest, SuccessResponse,
    Telemetry, UpdateRequest,
};
