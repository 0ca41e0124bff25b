use crate::config::{BAUD_RATE, MANUFACTURER, OPEN_SETTLE, TIMEOUT};
use crate::models::state::Connection;
use vstd::prelude::*;

verus! {

/// What the discovery reads of the kind of a serial port.
#[derive(Debug, PartialEq, Eq)]
pub enum PortType {
    /// A USB port, with the manufacturer string of its device if it has one.
    UsbPort { manufacturer: Option<String> },
    /// Any other kind of port.
    Other,
}

/// One serial port of the machine, as the enumeration lists it.
#[derive(Debug, PartialEq, Eq)]
pub struct PortInfo {
    pub port_name: String,
    pub port_type: PortType,
}

/// How to open the link to the device: the port and its settings, and the
/// pause, in milliseconds, between the opening and the draining of the boot
/// output. The timeout is in milliseconds too.
#[derive(Debug, PartialEq, Eq)]
pub struct ConnectPlan {
    pub port_name: String,
    pub baud_rate: u32,
    pub timeout: u64,
    pub settle: u64,
}

/// What the monitor does when it wakes.
#[derive(Debug, PartialEq, Eq)]
pub enum MonitorStep {
    /// The slot is empty: try to connect, and store what that brings.
    Reconnect,
    /// A handle is present: leave it alone.
    Rest,
}

/// Whether a port is a USB port whose manufacturer is the configured one,
/// letter for letter.
pub open spec fn is_device(port: PortInfo) -> bool {
    port.port_type matches PortType::UsbPort { manufacturer: Some(name) } && name@
        == MANUFACTURER@
}

/// The name of the first port in the list that is the device, if any is.
pub open spec fn device_port(ports: Seq<PortInfo>) -> Option<Seq<char>>
    decreases ports.len(),
{
    if ports.len() == 0 {
        None
    } else if is_device(ports[0]) {
        Some(ports[0].port_name@)
    } else {
        device_port(ports.drop_first())
    }
}

fn matches_device(port: &PortInfo, wanted: &String) -> (is: bool)
    requires
        wanted@ == MANUFACTURER@,
    ensures
        is == is_device(*port),
{
    match &port.port_type {
        PortType::UsbPort { manufacturer: Some(name) } => *name == *wanted,
        _ => false,
    }
}

/// Picks the port of the device from the ports that the machine lists: the
/// first USB port whose manufacturer is the configured one. Where several
/// match, the order of the list decides.
pub fn get_com_port(ports: &Vec<PortInfo>) -> (found: Option<String>)
    ensures
        found.deep_view() == device_port(ports@),
{
    let wanted = String::from_str(MANUFACTURER);
    let mut i: usize = 0;
    assert(ports@.skip(0) =~= ports@);
    while i < ports.len()
        invariant
            i <= ports.len(),
            wanted@ == MANUFACTURER@,
            device_port(ports@) == device_port(ports@.skip(i as int)),
        decreases ports.len() - i,
    {
        let ghost rest = ports@.skip(i as int);
        assert(rest[0] == ports@[i as int]);
        if matches_device(&ports[i], &wanted) {
            return Some(ports[i].port_name.clone());
        }
        assert(rest.drop_first() =~= ports@.skip(i + 1));
        i = i + 1;
    }
    None
}

/// Plans a connection attempt from the ports that the machine lists.
///
/// Without a port of the device there is nothing to open. Otherwise the
/// port is opened with the configured speed and timeout; once it is open,
/// the device is given time to restart, and what it wrote while starting is
/// drained and dropped.
pub fn connect_arduino(ports: &Vec<PortInfo>) -> (plan: Option<ConnectPlan>)
    ensures
        match plan {
            Some(open) => {
                &&& device_port(ports@) == Some(open.port_name@)
                &&& open.baud_rate == BAUD_RATE
                &&& open.timeout == TIMEOUT
                &&& open.settle == OPEN_SETTLE
            },
            None => device_port(ports@) is None,
        },
{
    match get_com_port(ports) {
        Some(port_name) => Some(
            ConnectPlan { port_name, baud_rate: BAUD_RATE, timeout: TIMEOUT, settle: OPEN_SETTLE },
        ),
        None => None,
    }
}

/// Decides what the monitor does each time it wakes: it tries to connect
/// exactly when the slot is empty. It holds the slot while it decides and
/// while it connects, so it never cuts into a command exchange.
pub fn monitor_arduino_connection<H>(slot: &Connection<H>) -> (step: MonitorStep)
    ensures
        step == if slot is Disconnected {
            MonitorStep::Reconnect
        } else {
            MonitorStep::Rest
        },
{
    if slot.is_connected() {
        MonitorStep::Rest
    } else {
        MonitorStep::Reconnect
    }
}

} // verus!
