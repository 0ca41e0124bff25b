pub mod communication;
pub mod connection;

pub use communication::{
    get_all_responses, read_serial, send_data, send_failure, DrainEvent, DrainStep, ReadEvent,
    ReadStep, Transmission,
};
pub use connection::{
    connect_arduino, get_com_port, monitor_arduino_connection, ConnectPlan, MonitorStep, PortInfo,
    PortType,
};
