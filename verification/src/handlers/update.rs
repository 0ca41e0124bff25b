use crate::handlers::reply::{
    answer_of, command_view, device_answer, exchange_view, not_connected, not_connected_failure,
    reply_view, slot_after,
};
use crate::models::requests::UpdateRequest;
use crate::models::responses::{ErrorResponse, ErrorView, SuccessResponse, SuccessView};
use crate::models::state::Connection;
use crate::utils::formatters::{make_update_string, update_command};
use vstd::prelude::*;

verus! {

/// The command that an update request stands for.
pub open spec fn update_text(payload: UpdateRequest) -> Seq<char> {
    update_command(
        payload.power as int,
        payload.charge as int,
        payload.time as int,
        payload.eeprom as int,
        payload.active as int,
    )
}

/// How an update request begins: with its command, or, without a
/// connection, with a refusal.
pub open spec fn update_plan<H>(slot: Connection<H>, payload: UpdateRequest) -> Result<
    Seq<char>,
    (u16, ErrorView),
> {
    if slot is Connected {
        Ok(update_text(payload))
    } else {
        Err(not_connected_failure())
    }
}

/// The answer to an update request whose command `sent` went through an
/// exchange: the command and the response of the device, or the failure of
/// the exchange.
pub open spec fn update_report(sent: Seq<char>, exchange: Result<Seq<char>, Seq<char>>) -> Result<
    SuccessView,
    (u16, ErrorView),
> {
    match answer_of(exchange) {
        Ok(response) => Ok(
            SuccessView {
                status: "success"@,
                sent: Some(sent),
                arduino_response: Some(response),
                message: None,
                parameters: None,
                data: None,
            },
        ),
        Err(refusal) => Err(refusal),
    }
}

/// Begins an update request: gives the command to send.
///
/// Without a connection the request is refused and nothing is sent.
pub fn update<H>(slot: &Connection<H>, payload: &UpdateRequest) -> (begun: Result<
    String,
    (u16, ErrorResponse),
>)
    ensures
        command_view(begun) == update_plan(*slot, *payload),
{
    if !slot.is_connected() {
        return Err(not_connected());
    }
    Ok(
        make_update_string(
            payload.power,
            payload.charge,
            payload.time,
            payload.eeprom,
            payload.active,
        ),
    )
}

/// Ends an update request with the outcome of its exchange. The connection
/// is given up when the exchange brought no answer.
pub fn update_reply<H>(slot: &mut Connection<H>, sent: String, exchange: Result<String, String>) -> (reply:
    Result<SuccessResponse, (u16, ErrorResponse)>)
    ensures
        *final(slot) == slot_after(*old(slot), exchange_view(exchange)),
        reply_view(reply) == update_report(sent@, exchange_view(exchange)),
{
    match device_answer(slot, exchange) {
        Ok(response) => Ok(
            SuccessResponse {
                status: String::from_str("success"),
                sent: Some(sent),
                arduino_response: Some(response),
                message: None,
                parameters: None,
                data: None,
            },
        ),
        Err(refusal) => Err(refusal),
    }
}

} // verus!
