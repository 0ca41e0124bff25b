use crate::handlers::reply::{
    answer_of, command_view, device_answer, exchange_view, not_connected, not_connected_failure,
    reply_view, slot_after,
};
use crate::models::requests::StopRequest;
use crate::models::responses::{ErrorResponse, ErrorView, SuccessResponse, SuccessView};
use crate::models::state::Connection;
use crate::utils::formatters::{make_stop_string, stop_command};
use vstd::prelude::*;

verus! {

/// The EEPROM slot that a stop request names. A request without a body names
/// none.
pub open spec fn stop_target(payload: Option<StopRequest>) -> Option<i32> {
    match payload {
        Some(request) => request.eeprom,
        None => None,
    }
}

/// How a stop request begins: with its command, or, without a connection,
/// with a refusal.
pub open spec fn stop_plan<H>(slot: Connection<H>, payload: Option<StopRequest>) -> Result<
    Seq<char>,
    (u16, ErrorView),
> {
    if slot is Connected {
        Ok(stop_command(stop_target(payload)))
    } else {
        Err(not_connected_failure())
    }
}

/// The answer to a stop request after its exchange: the response of the
/// device, or the failure of the exchange.
pub open spec fn stop_report(exchange: Result<Seq<char>, Seq<char>>) -> Result<
    SuccessView,
    (u16, ErrorView),
> {
    match answer_of(exchange) {
        Ok(response) => Ok(
            SuccessView {
                status: "success"@,
                sent: None,
                arduino_response: Some(response),
                message: None,
                parameters: None,
                data: None,
            },
        ),
        Err(refusal) => Err(refusal),
    }
}

/// Begins a stop request: gives the command to send. The body of the request
/// may be missing.
///
/// Without a connection the request is refused and nothing is sent.
pub fn stop<H>(slot: &Connection<H>, payload: &Option<StopRequest>) -> (begun: Result<
    String,
    (u16, ErrorResponse),
>)
    ensures
        command_view(begun) == stop_plan(*slot, *payload),
{
    if !slot.is_connected() {
        return Err(not_connected());
    }
    let target = match payload {
        Some(request) => request.eeprom,
        None => None,
    };
    Ok(make_stop_string(target))
}

/// Ends a stop request with the outcome of its exchange. The connection is
/// given up when the exchange brought no answer.
pub fn stop_reply<H>(slot: &mut Connection<H>, exchange: Result<String, String>) -> (reply: Result<
    SuccessResponse,
    (u16, ErrorResponse),
>)
    ensures
        *final(slot) == slot_after(*old(slot), exchange_view(exchange)),
        reply_view(reply) == stop_report(exchange_view(exchange)),
{
    match device_answer(slot, exchange) {
        Ok(response) => Ok(
            SuccessResponse {
                status: String::from_str("success"),
                sent: None,
                arduino_response: Some(response),
                message: None,
                parameters: None,
                data: None,
            },
        ),
        Err(refusal) => Err(refusal),
    }
}

} // verus!
