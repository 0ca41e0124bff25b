use crate::handlers::reply::{
    answer_of, device_answer, exchange_view, fail, failure, failure_view, not_connected,
    not_connected_failure, reply_view, slot_after, BAD_REQUEST,
};
use crate::models::requests::LedRequest;
use crate::models::responses::{
    ErrorResponse, ErrorView, LedParameters, SuccessResponse, SuccessView,
};
use crate::models::state::Connection;
use crate::utils::converters::{hex_to_rgb, parsed_color};
use crate::utils::formatters::{led_command, make_led_string};
use vstd::prelude::*;

verus! {

/// An LED request that was accepted: the command to send, and the
/// parameters to echo once the device has answered.
#[derive(Debug, PartialEq, Eq)]
pub struct LedOrder {
    pub command: String,
    pub parameters: LedParameters,
}

/// An `LedOrder` with its text as a sequence of characters.
pub struct LedOrderView {
    pub command: Seq<char>,
    pub parameters: LedParameters,
}

impl View for LedOrder {
    type V = LedOrderView;

    open spec fn view(&self) -> LedOrderView {
        LedOrderView { command: self.command@, parameters: self.parameters }
    }
}

/// The beginning of an LED request with its texts as sequences of
/// characters.
pub open spec fn order_view(begun: Result<LedOrder, (u16, ErrorResponse)>) -> Result<
    LedOrderView,
    (u16, ErrorView),
> {
    match begun {
        Ok(order) => Ok(order@),
        Err(refusal) => Err(failure_view(refusal)),
    }
}

/// The parameters of an LED request whose colour reads as `color`.
pub open spec fn led_parameters(payload: LedRequest, color: (u8, u8, u8)) -> LedParameters {
    LedParameters {
        led_id: payload.led_id,
        color,
        forward: payload.forward,
        pulse_frequenz: payload.pulse_frequenz,
    }
}

/// The command that LED parameters stand for.
pub open spec fn led_text(parameters: LedParameters) -> Seq<char> {
    led_command(
        parameters.led_id as int,
        parameters.color,
        parameters.forward,
        parameters.pulse_frequenz as int,
    )
}

/// How an LED request begins. Without a connection it is refused, whatever
/// its colour. With one, a colour that is no hex colour is refused as a bad
/// request, in the words of `hex_to_rgb`. Otherwise the order holds the
/// command and the parameters it was made from.
pub open spec fn led_plan<H>(slot: Connection<H>, payload: LedRequest) -> Result<
    LedOrderView,
    (u16, ErrorView),
> {
    if slot is Disconnected {
        Err(not_connected_failure())
    } else {
        match parsed_color(payload.color@) {
            Ok(color) => Ok(
                LedOrderView {
                    command: led_text(led_parameters(payload, color)),
                    parameters: led_parameters(payload, color),
                },
            ),
            Err(message) => Err(failure(BAD_REQUEST, message)),
        }
    }
}

/// The answer to an LED request after its exchange: the parameters that were
/// set, or the failure of the exchange.
pub open spec fn led_report(parameters: LedParameters, exchange: Result<Seq<char>, Seq<char>>) -> Result<
    SuccessView,
    (u16, ErrorView),
> {
    match answer_of(exchange) {
        Ok(_) => Ok(
            SuccessView {
                status: "success"@,
                sent: None,
                arduino_response: None,
                message: Some("LED parameters received"@),
                parameters: Some(parameters),
                data: None,
            },
        ),
        Err(refusal) => Err(refusal),
    }
}

/// Begins an LED request: reads the colour and gives the command to send.
///
/// A request that is refused sends nothing and leaves the connection as it
/// is.
pub fn led<H>(slot: &Connection<H>, payload: &LedRequest) -> (begun: Result<
    LedOrder,
    (u16, ErrorResponse),
>)
    ensures
        order_view(begun) == led_plan(*slot, *payload),
{
    if !slot.is_connected() {
        return Err(not_connected());
    }
    let color = match hex_to_rgb(payload.color.as_str()) {
        Ok(color) => color,
        Err(message) => {
            return Err(fail(BAD_REQUEST, message));
        },
    };
    let parameters = LedParameters {
        led_id: payload.led_id,
        color,
        forward: payload.forward,
        pulse_frequenz: payload.pulse_frequenz,
    };
    let command = make_led_string(
        payload.led_id,
        color,
        payload.forward,
        payload.pulse_frequenz,
    );
    Ok(LedOrder { command, parameters })
}

/// Ends an LED request with the outcome of its exchange. The connection is
/// given up when the exchange brought no answer.
pub fn led_reply<H>(
    slot: &mut Connection<H>,
    parameters: LedParameters,
    exchange: Result<String, String>,
) -> (reply: Result<SuccessResponse, (u16, ErrorResponse)>)
    ensures
        *final(slot) == slot_after(*old(slot), exchange_view(exchange)),
        reply_view(reply) == led_report(parameters, exchange_view(exchange)),
{
    match device_answer(slot, exchange) {
        Ok(_) => Ok(
            SuccessResponse {
                status: String::from_str("success"),
                sent: None,
                arduino_response: None,
                message: Some(String::from_str("LED parameters received")),
                parameters: Some(parameters),
                data: None,
            },
        ),
        Err(refusal) => Err(refusal),
    }
}

} // verus!
