pub mod requests;
pub mod responses;
pub mod state;

pub use requests::{default_active, LedRequest, StopRequest, UpdateRequest};
pub use responses::{
    ErrorResponse, ErrorView, LedParameters, SuccessResponse, SuccessView, Telemetry,
};
pub use state::Connection;
