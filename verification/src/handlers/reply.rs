use crate::models::responses::{ErrorResponse, ErrorView, SuccessResponse, SuccessView};
use crate::models::state::Connection;
use vstd::prelude::*;

verus! {

/// Status of a request that found no connection.
pub const SERVICE_UNAVAILABLE: u16 = 503;

/// Status of a request whose exchange with the device failed.
pub const INTERNAL_SERVER_ERROR: u16 = 500;

/// Status of a request that is itself at fault.
pub const BAD_REQUEST: u16 = 400;

/// A failure as the endpoints report it: the status code and the body.
pub open spec fn failure(status: u16, message: Seq<char>) -> (u16, ErrorView) {
    (status, ErrorView { status: "error"@, message })
}

/// The failure of a request that found no connection.
pub open spec fn not_connected_failure() -> (u16, ErrorView) {
    failure(SERVICE_UNAVAILABLE, "Arduino not connected - no port available"@)
}

/// A failure with its body's texts as sequences of characters.
pub open spec fn failure_view(refusal: (u16, ErrorResponse)) -> (u16, ErrorView) {
    (refusal.0, refusal.1@)
}

/// An answer of an endpoint with its texts as sequences of characters.
pub open spec fn reply_view(reply: Result<SuccessResponse, (u16, ErrorResponse)>) -> Result<
    SuccessView,
    (u16, ErrorView),
> {
    match reply {
        Ok(body) => Ok(body@),
        Err(refusal) => Err(failure_view(refusal)),
    }
}

/// The beginning of a request that sends one command, with its texts as
/// sequences of characters: the command, or the failure to report.
pub open spec fn command_view(begun: Result<String, (u16, ErrorResponse)>) -> Result<
    Seq<char>,
    (u16, ErrorView),
> {
    match begun {
        Ok(command) => Ok(command@),
        Err(refusal) => Err(failure_view(refusal)),
    }
}

/// The outcome of a command exchange with its texts as sequences of
/// characters: the response of the device, or why there is none.
pub open spec fn exchange_view(exchange: Result<String, String>) -> Result<Seq<char>, Seq<char>> {
    match exchange {
        Ok(response) => Ok(response@),
        Err(reason) => Err(reason@),
    }
}

/// Whether `c` is the letter `lower` in either case.
pub open spec fn is_letter(c: char, lower: char, upper: char) -> bool {
    c == lower || c == upper
}

/// Whether a response reports an error of the device: it begins with
/// `error`, in any mix of upper and lower case.
pub open spec fn is_error_text(response: Seq<char>) -> bool {
    &&& response.len() >= 5
    &&& is_letter(response[0], 'e', 'E')
    &&& is_letter(response[1], 'r', 'R')
    &&& is_letter(response[2], 'r', 'R')
    &&& is_letter(response[3], 'o', 'O')
    &&& is_letter(response[4], 'r', 'R')
}

/// Whether an exchange brought a response that is no error of the device.
pub open spec fn answered(exchange: Result<Seq<char>, Seq<char>>) -> bool {
    exchange matches Ok(response) && !is_error_text(response)
}

/// The slot after an exchange: kept when the device answered, given up when
/// it did not, so that the next command fails at once instead of using a
/// handle that may be dead.
pub open spec fn slot_after<H>(slot: Connection<H>, exchange: Result<Seq<char>, Seq<char>>) -> Connection<H> {
    if answered(exchange) {
        slot
    } else {
        Connection::Disconnected
    }
}

/// What an exchange yields for the caller: the response, or the failure to
/// report. A transport failure is reported in its own words.
pub open spec fn answer_of(exchange: Result<Seq<char>, Seq<char>>) -> Result<Seq<char>, (u16, ErrorView)> {
    match exchange {
        Ok(response) => if is_error_text(response) {
            Err(failure(INTERNAL_SERVER_ERROR, "No response from Arduino"@))
        } else {
            Ok(response)
        },
        Err(reason) => Err(failure(INTERNAL_SERVER_ERROR, reason)),
    }
}

/// Tells whether a response reports an error of the device.
pub fn is_error_response(response: &str) -> (is_error: bool)
    ensures
        is_error == is_error_text(response@),
{
    if response.unicode_len() < 5 {
        return false;
    }
    let c0 = response.get_char(0);
    let c1 = response.get_char(1);
    let c2 = response.get_char(2);
    let c3 = response.get_char(3);
    let c4 = response.get_char(4);
    (c0 == 'e' || c0 == 'E') && (c1 == 'r' || c1 == 'R') && (c2 == 'r' || c2 == 'R') && (c3 == 'o'
        || c3 == 'O') && (c4 == 'r' || c4 == 'R')
}

/// Builds a failure with the status `error`.
pub fn fail(status: u16, message: String) -> (refusal: (u16, ErrorResponse))
    ensures
        failure_view(refusal) == failure(status, message@),
{
    (status, ErrorResponse { status: String::from_str("error"), message })
}

/// The failure of a request that found no connection. No command is sent
/// for such a request.
pub fn not_connected() -> (refusal: (u16, ErrorResponse))
    ensures
        failure_view(refusal) == not_connected_failure(),
{
    fail(SERVICE_UNAVAILABLE, String::from_str("Arduino not connected - no port available"))
}

/// Judges the outcome of a command exchange.
///
/// The response is handed on when the device answered. When the exchange
/// failed, or the response reports an error of the device, the connection is
/// given up and the failure to report comes back.
pub fn device_answer<H>(slot: &mut Connection<H>, exchange: Result<String, String>) -> (answer: Result<
    String,
    (u16, ErrorResponse),
>)
    ensures
        *final(slot) == slot_after(*old(slot), exchange_view(exchange)),
        match answer {
            Ok(response) => answer_of(exchange_view(exchange)) == Ok::<
                Seq<char>,
                (u16, ErrorView),
            >(response@),
            Err(refusal) => answer_of(exchange_view(exchange)) == Err::<
                Seq<char>,
                (u16, ErrorView),
            >(failure_view(refusal)),
        },
{
    match exchange {
        Ok(response) => {
            if is_error_response(response.as_str()) {
                slot.disconnect();
                Err(fail(INTERNAL_SERVER_ERROR, String::from_str("No response from Arduino")))
            } else {
                Ok(response)
            }
        },
        Err(reason) => {
            slot.disconnect();
            Err(fail(INTERNAL_SERVER_ERROR, reason))
        },
    }
}

} // verus!
