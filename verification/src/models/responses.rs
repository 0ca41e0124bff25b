use vstd::prelude::*;

verus! {

/// The parameters that an LED request set, as echoed to the caller.
#[derive(Debug, Clone, Copy, PartialEq, Eq)]
pub struct LedParameters {
    pub led_id: i32,
    pub color: (u8, u8, u8),
    pub forward: bool,
    pub pulse_frequenz: i32,
}

/// What a scan reports as data.
#[derive(Debug, PartialEq)]
pub enum Telemetry {
    /// The document that the device sent.
    Document(serde_json::Value),
    /// The empty list: no two readings agreed.
    Empty,
}

/// Answer to a request that went through.
#[derive(Debug, PartialEq)]
pub struct SuccessResponse {
    pub status: String,
    pub sent: Option<String>,
    pub arduino_response: Option<String>,
    pub message: Option<String>,
    pub parameters: Option<LedParameters>,
    pub data: Option<Telemetry>,
}

/// Answer to a request that failed.
#[derive(Debug, PartialEq, Eq)]
pub struct ErrorResponse {
    pub status: String,
    pub message: String,
}

/// A `SuccessResponse` with its texts as sequences of characters.
pub struct SuccessView {
    pub status: Seq<char>,
    pub sent: Option<Seq<char>>,
    pub arduino_response: Option<Seq<char>>,
    pub message: Option<Seq<char>>,
    pub parameters: Option<LedParameters>,
    pub data: Option<Telemetry>,
}

/// An `ErrorResponse` with its texts as sequences of characters.
pub struct ErrorView {
    pub status: Seq<char>,
    pub message: Seq<char>,
}

impl View for SuccessResponse {
    type V = SuccessView;

    open spec fn view(&self) -> SuccessView {
        SuccessView {
            status: self.status@,
            sent: self.sent.deep_view(),
            arduino_response: self.arduino_response.deep_view(),
            message: self.message.deep_view(),
            parameters: self.parameters,
            data: self.data,
        }
    }
}

impl View for ErrorResponse {
    type V = ErrorView;

    open spec fn view(&self) -> ErrorView {
        ErrorView { status: self.status@, message: self.message@ }
    }
}

} // verus!
