use vstd::prelude::*;

verus! {

/// Body of an update request: the set points of one EEPROM slot.
#[derive(Debug, PartialEq, Eq)]
pub struct UpdateRequest {
    pub power: i32,
    pub charge: i32,
    pub time: i32,
    pub eeprom: i32,
    pub active: i32,
}

/// The value of `active` when an update request leaves it out.
pub fn default_active() -> (active: i32)
    ensures
        active == 1,
{
    1
}

/// Body of a stop request. Without `eeprom` every slot is stopped.
#[derive(Debug, PartialEq, Eq)]
pub struct StopRequest {
    pub eeprom: Option<i32>,
}

/// Body of an LED request. `color` is a hex colour such as `#FF5733`.
#[derive(Debug, PartialEq, Eq)]
pub struct LedRequest {
    pub led_id: i32,
    pub color: String,
    pub forward: bool,
    pub pulse_frequenz: i32,
}

} // verus!
