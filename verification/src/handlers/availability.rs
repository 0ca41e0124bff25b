use crate::handlers::led::led_plan;
use crate::handlers::reply::{answered, not_connected_failure, slot_after};
use crate::handlers::scan::scan_plan;
use crate::handlers::stop::stop_plan;
use crate::handlers::update::update_plan;
use crate::models::requests::{LedRequest, StopRequest, UpdateRequest};
use crate::models::responses::ErrorView;
use crate::models::state::Connection;
use vstd::prelude::*;

verus! {

/// Whether every kind of request is refused for want of a connection, with
/// nothing to send.
pub open spec fn refuses_every_request<H>(
    slot: Connection<H>,
    update: UpdateRequest,
    stop: Option<StopRequest>,
    led: LedRequest,
) -> bool {
    &&& update_plan(slot, update) == Err::<Seq<char>, (u16, ErrorView)>(not_connected_failure())
    &&& stop_plan(slot, stop) == Err::<Seq<char>, (u16, ErrorView)>(not_connected_failure())
    &&& led_plan(slot, led) is Err
    &&& led_plan(slot, led)->Err_0 == not_connected_failure()
    &&& scan_plan(slot) is Err
    &&& scan_plan(slot)->Err_0 == not_connected_failure()
}

/// While no device is connected, every request is refused as not connected,
/// whatever it asks for. A refusal comes with no command: nothing is written
/// and nothing is read.
pub proof fn lemma_disconnected_refuses_every_request<H>(
    slot: Connection<H>,
    update: UpdateRequest,
    stop: Option<StopRequest>,
    led: LedRequest,
)
    requires
        slot is Disconnected,
    ensures
        refuses_every_request(slot, update, stop, led),
{
}

/// Once an exchange has brought no answer, the slot is empty, and every
/// request that follows is refused as not connected until a handle is
/// stored again: a handle that may be dead is never used a second time.
pub proof fn lemma_failed_exchange_refuses_next_request<H>(
    slot: Connection<H>,
    exchange: Result<Seq<char>, Seq<char>>,
    update: UpdateRequest,
    stop: Option<StopRequest>,
    led: LedRequest,
)
    requires
        !answered(exchange),
    ensures
        slot_after(slot, exchange) is Disconnected,
        refuses_every_request(slot_after(slot, exchange), update, stop, led),
{
}

} // verus!
