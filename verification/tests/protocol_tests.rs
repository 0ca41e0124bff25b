//! The serial protocol, driven the way the server drives it, against a
//! scripted device.

use webserver::config::{
    BAUD_RATE, COMMAND_SETTLE, DRAIN_PAUSE, OPEN_SETTLE, RECONNECT_INTERVAL, SCAN_PAUSE, TIMEOUT,
};
use webserver::handlers::{
    is_error_response, led, led_reply, scan, scan_reply, stop, stop_reply, update, update_reply,
    ScanStep,
};
use webserver::models::{
    default_active, Connection, ErrorResponse, LedParameters, LedRequest, StopRequest,
    SuccessResponse, Telemetry, UpdateRequest,
};
use webserver::serial::communication::{is_whitespace, trim};
use webserver::serial::{
    connect_arduino, get_all_responses, get_com_port, monitor_arduino_connection, read_serial,
    send_data, send_failure, ConnectPlan, DrainEvent, DrainStep, MonitorStep, PortInfo, PortType,
    ReadEvent, ReadStep,
};
use webserver::utils::formatters::{parse_failure, payload};
use webserver::utils::json::readings_agree;
use webserver::utils::{format_response, hex_to_rgb, make_led_string, make_update_string};

/// A device that answers from a script and records what is written to it.
struct Device {
    /// What the reads bring, one event at a time. When the script is used
    /// up, every read times out.
    script: Vec<ReadEvent>,
    next: usize,
    /// Every write, in order.
    written: Vec<Vec<u8>>,
    /// The pauses that were asked for, in order.
    pauses: Vec<u64>,
    /// Whether writing fails.
    broken: bool,
}

fn device(lines: &[&str]) -> Device {
    let mut script = Vec::new();
    for line in lines {
        for byte in line.bytes() {
            script.push(ReadEvent::Byte(byte));
        }
    }
    Device { script, next: 0, written: Vec::new(), pauses: Vec::new(), broken: false }
}

fn read_event(device: &mut Device) -> ReadEvent {
    if device.next >= device.script.len() {
        return ReadEvent::TimedOut;
    }
    let event = match &device.script[device.next] {
        ReadEvent::Byte(byte) => ReadEvent::Byte(*byte),
        ReadEvent::Empty => ReadEvent::Empty,
        ReadEvent::TimedOut => ReadEvent::TimedOut,
        ReadEvent::Failed(reason) => ReadEvent::Failed(reason.clone()),
    };
    device.next += 1;
    event
}

/// One command exchange: write the frame, pause, read the response.
fn exchange(device: &mut Device, command: &str) -> Result<String, String> {
    let transmission = send_data(command);
    if device.broken {
        return Err(send_failure("Broken pipe"));
    }
    device.written.push(transmission.frame);
    device.pauses.push(transmission.settle);
    let mut buffer = Vec::new();
    loop {
        let event = read_event(device);
        match read_serial(&mut buffer, event) {
            ReadStep::Continue => {}
            ReadStep::Done(outcome) => return outcome,
        }
    }
}

/// A whole scan against the device in the slot.
fn run_scan(slot: &mut Connection<Device>) -> Result<SuccessResponse, (u16, ErrorResponse)> {
    let mut round = scan(slot)?;
    loop {
        let outcome = match slot {
            Connection::Connected(device) => {
                device.pauses.push(round.pause);
                exchange(device, &round.command)
            }
            Connection::Disconnected => unreachable!(),
        };
        match scan_reply(slot, round.state, outcome) {
            ScanStep::Again(next) => round = next,
            ScanStep::Done(reply) => return reply,
        }
    }
}

fn update_request() -> UpdateRequest {
    UpdateRequest { power: 100, charge: 50, time: 30, eeprom: 1, active: default_active() }
}

fn led_request(color: &str) -> LedRequest {
    LedRequest { led_id: 2, color: color.to_string(), forward: true, pulse_frequenz: 10 }
}

fn not_connected() -> (u16, ErrorResponse) {
    (
        503,
        ErrorResponse {
            status: "error".to_string(),
            message: "Arduino not connected - no port available".to_string(),
        },
    )
}

fn server_error(message: &str) -> (u16, ErrorResponse) {
    (500, ErrorResponse { status: "error".to_string(), message: message.to_string() })
}

fn usb(name: &str, manufacturer: Option<&str>) -> PortInfo {
    PortInfo {
        port_name: name.to_string(),
        port_type: PortType::UsbPort { manufacturer: manufacturer.map(|m| m.to_string()) },
    }
}

fn document(text: &str) -> serde_json::Value {
    serde_json::from_str(text).unwrap()
}

// ---- configuration -------------------------------------------------------

#[test]
fn configuration_holds_the_fixed_parameters() {
    assert_eq!(webserver::MANUFACTURER, "Microsoft");
    assert_eq!(BAUD_RATE, 9600);
    assert_eq!(TIMEOUT, 1000);
    assert_eq!(webserver::SERVER_PORT, 5000);
    assert_eq!(RECONNECT_INTERVAL, 5000);
    assert_eq!(COMMAND_SETTLE, 100);
    assert_eq!(OPEN_SETTLE, 2000);
    assert_eq!(DRAIN_PAUSE, 100);
    assert_eq!(SCAN_PAUSE, 100);
    assert_eq!(default_active(), 1);
}

// ---- formatting ----------------------------------------------------------

#[test]
fn commands_hold_negative_and_extreme_numbers() {
    assert_eq!(
        make_update_string(-1, i32::MIN, i32::MAX, -10, 0),
        "UPDATE(-10, -1, -2147483648, 2147483647, 0)"
    );
    assert_eq!(make_led_string(-3, (0, 9, 10), false, -7), "LED(-3, 0, 0, 9, 10, -7)");
}

#[test]
fn commands_agree_with_the_standard_formatter() {
    let samples = [0, 1, 9, 10, 11, 99, 100, 101, 999, 1000, 65535, 1234567890, i32::MAX];
    for &n in samples.iter() {
        for &m in [n, -n, i32::MIN].iter() {
            assert_eq!(
                make_update_string(m, n, m, n, m),
                format!("UPDATE({}, {}, {}, {}, {})", n, m, n, m, m)
            );
        }
    }
}

#[test]
fn commands_never_hold_a_frame_delimiter() {
    let commands = [
        make_update_string(i32::MIN, -1, 0, 1, i32::MAX),
        make_led_string(i32::MIN, (255, 0, 128), true, i32::MAX),
        webserver::utils::make_stop_string(Some(-5)),
        webserver::utils::make_stop_string(None),
        webserver::utils::make_scan_string(),
    ];
    for command in commands.iter() {
        assert!(!command.contains('<'));
        assert!(!command.contains('>'));
        assert!(!command.contains('\n'));
    }
}

#[test]
fn frame_wraps_the_command() {
    let transmission = send_data("UPDATE(1, 100, 50, 30, 1)");
    assert_eq!(transmission.frame, b"<UPDATE(1, 100, 50, 30, 1)>\n".to_vec());
    assert_eq!(transmission.settle, 100);
    assert_eq!(send_data("").frame, b"<>\n".to_vec());
    assert_eq!(send_data("\u{e9}").frame, vec![0x3C, 0xC3, 0xA9, 0x3E, 0x0A]);
}

#[test]
fn send_failure_names_the_reason() {
    assert_eq!(send_failure("Broken pipe"), "Fehler beim Senden: Broken pipe");
}

// ---- colours -------------------------------------------------------------

#[test]
fn every_color_is_read_back_in_either_case() {
    for value in 0..=255u8 {
        let lower = format!("{:02x}{:02x}{:02x}", value, 255 - value, value / 2);
        let upper = format!("#{:02X}{:02X}{:02X}", value, 255 - value, value / 2);
        assert_eq!(hex_to_rgb(&lower), Ok((value, 255 - value, value / 2)));
        assert_eq!(hex_to_rgb(&upper), Ok((value, 255 - value, value / 2)));
    }
}

#[test]
fn colors_of_other_shapes_are_refused() {
    let too_short_or_long = ["", "#", "F", "#FFFFF", "FFFFFFF", "##FF5733", "FF5733#", "\u{e9}\u{e9}\u{e9}"];
    for text in too_short_or_long.iter() {
        assert_eq!(hex_to_rgb(text), Err("Hex color must be 6 digits long".to_string()));
    }
    let bad_digits = ["GGGGGG", "#12345G", "+F+F+F", "#-12345", "12 456", "#ff573\u{e9}"];
    for text in bad_digits.iter() {
        assert_eq!(hex_to_rgb(text), Err("invalid digit found in string".to_string()));
    }
}

// ---- responses -----------------------------------------------------------

#[test]
fn payload_is_what_follows_the_first_colon() {
    assert_eq!(payload("DATA: {\"v\":1}"), Some(" {\"v\":1}"));
    assert_eq!(payload("a:b:c"), Some("b:c"));
    assert_eq!(payload(":"), Some(""));
    assert_eq!(payload("\u{e9}t\u{e9}: 1"), Some(" 1"));
    assert_eq!(payload("INVALID"), None);
    assert_eq!(payload(""), None);
}

#[test]
fn response_with_document_parses() {
    let parsed = format_response("DATA: {\"v\":1}");
    assert_eq!(parsed, Ok(document("{\"v\":1}")));
    assert_eq!(format_response("x:null"), Ok(serde_json::Value::Null));
}

#[test]
fn response_without_document_is_malformed() {
    assert_eq!(format_response("INVALID"), Err("Invalid response format".to_string()));
    assert_eq!(
        format_response("DATA: {invalid json}"),
        Err("JSON parse error: key must be a string at line 1 column 3".to_string())
    );
    assert_eq!(
        format_response("DATA:"),
        Err("JSON parse error: EOF while parsing a value at line 1 column 0".to_string())
    );
    assert_eq!(parse_failure("oops"), "JSON parse error: oops");
}

#[test]
fn error_prefix_is_found_in_any_case() {
    assert!(is_error_response("error: bad"));
    assert!(is_error_response("ERROR"));
    assert!(is_error_response("ErRoR 12"));
    assert!(!is_error_response("erro"));
    assert!(!is_error_response(" error"));
    assert!(!is_error_response("OK"));
    assert!(!is_error_response(""));
    assert!(!is_error_response("\u{e9}rror"));
}

#[test]
fn readings_agree_as_documents_not_as_texts() {
    let one = Some(document("{\"a\": 1, \"b\": [true, null]}"));
    let same = Some(document("{\"b\":[true,null],\"a\":1}"));
    let other = Some(document("{\"a\": 2, \"b\": [true, null]}"));
    assert!(readings_agree(&one, &same));
    assert!(readings_agree(&one, &one));
    assert!(!readings_agree(&one, &other));
    assert!(!readings_agree(&one, &None));
    assert!(!readings_agree(&None, &other));
    assert!(readings_agree(&None, &None));
}

// ---- white space ---------------------------------------------------------

#[test]
fn white_space_is_what_the_standard_library_says() {
    for code in 0..=0x10FFFFu32 {
        if let Some(c) = char::from_u32(code) {
            assert_eq!(is_whitespace(c), c.is_whitespace(), "U+{:04X}", code);
        }
    }
}

#[test]
fn trim_removes_white_space_at_both_ends_only() {
    let samples = [
        "",
        " ",
        "\r\n",
        "OK\r\n",
        "  a b  ",
        "\ta",
        "a\u{a0}",
        "\u{3000}x y\u{2028}",
        "x",
        " \u{e9} ",
        "a  ",
        "  a",
    ];
    for text in samples.iter() {
        assert_eq!(trim(text), text.trim());
    }
    assert_eq!(trim("  a b  "), "a b");
}

// ---- reading a response --------------------------------------------------

#[test]
fn line_ends_the_reading() {
    let mut port = device(&["OK\r\n", "LATER\n"]);
    assert_eq!(exchange(&mut port, "STOP()"), Ok("OK".to_string()));
    assert_eq!(port.next, 4);
    assert_eq!(exchange(&mut port, "STOP()"), Ok("LATER".to_string()));
}

#[test]
fn each_byte_goes_to_the_buffer() {
    let mut buffer = vec![b'a'];
    assert_eq!(read_serial(&mut buffer, ReadEvent::Byte(b'b')), ReadStep::Continue);
    assert_eq!(buffer, b"ab".to_vec());
    assert_eq!(read_serial(&mut buffer, ReadEvent::Empty), ReadStep::Continue);
    assert_eq!(buffer, b"ab".to_vec());
    assert_eq!(
        read_serial(&mut buffer, ReadEvent::Byte(b'\n')),
        ReadStep::Done(Ok("ab".to_string()))
    );
    assert_eq!(buffer, b"ab\n".to_vec());
}

#[test]
fn timeout_returns_what_was_read() {
    let mut buffer = b" partial".to_vec();
    assert_eq!(
        read_serial(&mut buffer, ReadEvent::TimedOut),
        ReadStep::Done(Ok("partial".to_string()))
    );
    assert_eq!(buffer, b" partial".to_vec());
}

#[test]
fn timeout_with_nothing_read_fails() {
    let mut buffer = Vec::new();
    assert_eq!(
        read_serial(&mut buffer, ReadEvent::TimedOut),
        ReadStep::Done(Err("Timeout".to_string()))
    );
    let mut port = device(&[]);
    assert_eq!(exchange(&mut port, "SCAN()"), Err("Timeout".to_string()));
}

#[test]
fn failed_read_ends_the_reading() {
    let mut buffer = b"abc".to_vec();
    assert_eq!(
        read_serial(&mut buffer, ReadEvent::Failed("device unplugged".to_string())),
        ReadStep::Done(Err("Error while reading: device unplugged".to_string()))
    );
}

#[test]
fn ill_formed_bytes_are_replaced() {
    let mut buffer = vec![b'a', 0xFF, b'b'];
    assert_eq!(
        read_serial(&mut buffer, ReadEvent::Byte(b'\n')),
        ReadStep::Done(Ok("a\u{fffd}b".to_string()))
    );
    let mut buffer = vec![0xC3, 0xA9];
    assert_eq!(
        read_serial(&mut buffer, ReadEvent::TimedOut),
        ReadStep::Done(Ok("\u{e9}".to_string()))
    );
}

// ---- draining ------------------------------------------------------------

#[test]
fn draining_collects_text_until_a_read_brings_nothing() {
    let mut text = String::new();
    assert_eq!(
        get_all_responses(&mut text, DrainEvent::Bytes(b"boot ".to_vec())),
        DrainStep::Again { pause: 100 }
    );
    assert_eq!(
        get_all_responses(&mut text, DrainEvent::Bytes(vec![0xFF, 0xFE])),
        DrainStep::Again { pause: 100 }
    );
    assert_eq!(
        get_all_responses(&mut text, DrainEvent::Bytes("fertig \u{e9}".as_bytes().to_vec())),
        DrainStep::Again { pause: 100 }
    );
    assert_eq!(text, "boot fertig \u{e9}");
    assert_eq!(get_all_responses(&mut text, DrainEvent::Bytes(Vec::new())), DrainStep::Done);
    assert_eq!(get_all_responses(&mut text, DrainEvent::Failed), DrainStep::Done);
    assert_eq!(text, "boot fertig \u{e9}");
}

// ---- discovery -----------------------------------------------------------

#[test]
fn discovery_takes_the_first_matching_usb_port() {
    let ports = vec![
        PortInfo { port_name: "ttyS0".to_string(), port_type: PortType::Other },
        usb("ttyUSB0", None),
        usb("ttyUSB1", Some("microsoft")),
        usb("ttyUSB2", Some("Microsoft Corp")),
        usb("ttyACM0", Some("Microsoft")),
        usb("ttyACM1", Some("Microsoft")),
    ];
    assert_eq!(get_com_port(&ports), Some("ttyACM0".to_string()));
    assert_eq!(
        connect_arduino(&ports),
        Some(ConnectPlan {
            port_name: "ttyACM0".to_string(),
            baud_rate: 9600,
            timeout: 1000,
            settle: 2000,
        })
    );
}

#[test]
fn discovery_without_a_match_finds_nothing() {
    let ports = vec![
        PortInfo { port_name: "Microsoft".to_string(), port_type: PortType::Other },
        usb("ttyUSB0", Some("Arduino LLC")),
    ];
    assert_eq!(get_com_port(&ports), None);
    assert_eq!(connect_arduino(&ports), None);
    assert_eq!(get_com_port(&Vec::new()), None);
}

// ---- the slot ------------------------------------------------------------

#[test]
fn monitor_reconnects_only_an_empty_slot() {
    let mut slot: Connection<u8> = Connection::Disconnected;
    assert_eq!(monitor_arduino_connection(&slot), MonitorStep::Reconnect);
    slot.restore(None);
    assert_eq!(slot, Connection::Disconnected);
    slot.restore(Some(1));
    assert_eq!(slot, Connection::Connected(1));
    assert!(slot.is_connected());
    assert_eq!(monitor_arduino_connection(&slot), MonitorStep::Rest);
    slot.restore(Some(2));
    assert_eq!(slot, Connection::Connected(1));
    slot.disconnect();
    assert_eq!(slot, Connection::Disconnected);
    assert!(!slot.is_connected());
}

#[test]
fn every_request_is_refused_while_nothing_connects() {
    // The device never shows up: each attempt of the monitor finds no port.
    let mut slot: Connection<Device> = Connection::Disconnected;
    for _ in 0..3 {
        assert_eq!(monitor_arduino_connection(&slot), MonitorStep::Reconnect);
        assert_eq!(connect_arduino(&vec![usb("ttyUSB0", Some("FTDI"))]), None);
        slot.restore(None);
        assert_eq!(update(&slot, &update_request()), Err(not_connected()));
        assert_eq!(stop(&slot, &None), Err(not_connected()));
        assert_eq!(stop(&slot, &Some(StopRequest { eeprom: Some(1) })), Err(not_connected()));
        assert_eq!(led(&slot, &led_request("#FF5733")), Err(not_connected()));
        assert_eq!(led(&slot, &led_request("invalid")), Err(not_connected()));
        assert_eq!(scan(&slot).map(|round| round.command), Err(not_connected()));
        assert_eq!(run_scan(&mut slot), Err(not_connected()));
    }
}

// ---- update, stop, led ---------------------------------------------------

#[test]
fn update_echoes_command_and_response() {
    let mut slot = Connection::Connected(device(&["OK\n"]));
    let command = update(&slot, &update_request()).unwrap();
    assert_eq!(command, "UPDATE(1, 100, 50, 30, 1)");
    let outcome = match &mut slot {
        Connection::Connected(port) => exchange(port, &command),
        Connection::Disconnected => unreachable!(),
    };
    let reply = update_reply(&mut slot, command, outcome);
    assert_eq!(
        reply,
        Ok(SuccessResponse {
            status: "success".to_string(),
            sent: Some("UPDATE(1, 100, 50, 30, 1)".to_string()),
            arduino_response: Some("OK".to_string()),
            message: None,
            parameters: None,
            data: None,
        })
    );
    match slot {
        Connection::Connected(port) => {
            assert_eq!(port.written, vec![b"<UPDATE(1, 100, 50, 30, 1)>\n".to_vec()]);
            assert_eq!(port.pauses, vec![100]);
        }
        Connection::Disconnected => panic!("the connection was given up"),
    }
}

#[test]
fn stop_builds_its_command_from_the_body() {
    let slot = Connection::Connected(0u8);
    assert_eq!(stop(&slot, &None), Ok("STOP()".to_string()));
    assert_eq!(stop(&slot, &Some(StopRequest { eeprom: None })), Ok("STOP()".to_string()));
    assert_eq!(stop(&slot, &Some(StopRequest { eeprom: Some(5) })), Ok("STOP(5)".to_string()));
    let mut slot = slot;
    assert_eq!(
        stop_reply(&mut slot, Ok("stopped".to_string())),
        Ok(SuccessResponse {
            status: "success".to_string(),
            sent: None,
            arduino_response: Some("stopped".to_string()),
            message: None,
            parameters: None,
            data: None,
        })
    );
    assert_eq!(slot, Connection::Connected(0));
}

#[test]
fn led_echoes_its_parameters() {
    let mut slot = Connection::Connected(0u8);
    let order = led(&slot, &led_request("#FF5733")).unwrap();
    let parameters =
        LedParameters { led_id: 2, color: (255, 87, 51), forward: true, pulse_frequenz: 10 };
    assert_eq!(order.command, "LED(2, 1, 255, 87, 51, 10)");
    assert_eq!(order.parameters, parameters);
    assert_eq!(
        led_reply(&mut slot, order.parameters, Ok("whatever".to_string())),
        Ok(SuccessResponse {
            status: "success".to_string(),
            sent: None,
            arduino_response: None,
            message: Some("LED parameters received".to_string()),
            parameters: Some(parameters),
            data: None,
        })
    );
    assert_eq!(slot, Connection::Connected(0));
}

#[test]
fn led_with_malformed_color_is_a_bad_request() {
    let slot = Connection::Connected(0u8);
    assert_eq!(
        led(&slot, &led_request("invalid")),
        Err((
            400,
            ErrorResponse {
                status: "error".to_string(),
                message: "Hex color must be 6 digits long".to_string(),
            }
        ))
    );
    assert_eq!(
        led(&slot, &led_request("#GGGGGG")),
        Err((
            400,
            ErrorResponse {
                status: "error".to_string(),
                message: "invalid digit found in string".to_string(),
            }
        ))
    );
    assert_eq!(slot, Connection::Connected(0));
}

#[test]
fn failed_exchange_gives_the_connection_up() {
    let outcomes: Vec<(Result<String, String>, &str)> = vec![
        (Err("Timeout".to_string()), "Timeout"),
        (Err(send_failure("Broken pipe")), "Fehler beim Senden: Broken pipe"),
        (Err("Error while reading: gone".to_string()), "Error while reading: gone"),
        (Ok("error: bad".to_string()), "No response from Arduino"),
        (Ok("ERROR".to_string()), "No response from Arduino"),
    ];
    for (outcome, message) in outcomes {
        let mut slot = Connection::Connected(0u8);
        assert_eq!(
            update_reply(&mut slot, "UPDATE(1, 2, 3, 4, 5)".to_string(), outcome.clone()),
            Err(server_error(message))
        );
        assert_eq!(slot, Connection::Disconnected);

        let mut slot = Connection::Connected(0u8);
        assert_eq!(stop_reply(&mut slot, outcome.clone()), Err(server_error(message)));
        assert_eq!(slot, Connection::Disconnected);

        let mut slot = Connection::Connected(0u8);
        let parameters =
            LedParameters { led_id: 1, color: (1, 2, 3), forward: false, pulse_frequenz: 0 };
        assert_eq!(led_reply(&mut slot, parameters, outcome), Err(server_error(message)));
        assert_eq!(slot, Connection::Disconnected);
    }
}

#[test]
fn command_after_a_failure_is_refused_at_once() {
    // The device stays silent: the exchange times out with nothing read.
    let mut slot = Connection::Connected(device(&[]));
    let command = update(&slot, &update_request()).unwrap();
    let outcome = match &mut slot {
        Connection::Connected(port) => exchange(port, &command),
        Connection::Disconnected => unreachable!(),
    };
    assert_eq!(update_reply(&mut slot, command, outcome), Err(server_error("Timeout")));
    assert!(!slot.is_connected());
    assert_eq!(update(&slot, &update_request()), Err(not_connected()));
    assert_eq!(stop(&slot, &None), Err(not_connected()));
    assert_eq!(led(&slot, &led_request("#000000")), Err(not_connected()));
    assert_eq!(run_scan(&mut slot), Err(not_connected()));
    // The monitor brings the device back.
    assert_eq!(monitor_arduino_connection(&slot), MonitorStep::Reconnect);
    slot.restore(Some(device(&["OK\n"])));
    assert_eq!(update(&slot, &update_request()), Ok("UPDATE(1, 100, 50, 30, 1)".to_string()));
}

#[test]
fn write_failure_is_reported_in_its_own_words() {
    let mut port = device(&["OK\n"]);
    port.broken = true;
    let mut slot = Connection::Connected(port);
    let command = stop(&slot, &None).unwrap();
    let outcome = match &mut slot {
        Connection::Connected(port) => exchange(port, &command),
        Connection::Disconnected => unreachable!(),
    };
    assert_eq!(
        stop_reply(&mut slot, outcome),
        Err(server_error("Fehler beim Senden: Broken pipe"))
    );
    assert!(!slot.is_connected());
}

// ---- scan ----------------------------------------------------------------

fn scanned(response: &str, data: Option<Telemetry>) -> SuccessResponse {
    SuccessResponse {
        status: "success".to_string(),
        sent: None,
        arduino_response: Some(response.to_string()),
        message: None,
        parameters: None,
        data,
    }
}

#[test]
fn scan_of_two_equal_answers_asks_twice() {
    let mut slot = Connection::Connected(device(&["SCAN: {\"v\":1}\n", "SCAN: {\"v\":1}\n", "SCAN: {\"v\":2}\n"]));
    assert_eq!(
        run_scan(&mut slot),
        Ok(scanned("SCAN: {\"v\":1}", Some(Telemetry::Document(document("{\"v\":1}")))))
    );
    match slot {
        Connection::Connected(port) => {
            assert_eq!(port.written, vec![b"<SCAN()>\n".to_vec(), b"<SCAN()>\n".to_vec()]);
            // No pause before the first command, one before the second.
            assert_eq!(port.pauses, vec![0, 100, 100, 100]);
        }
        Connection::Disconnected => panic!("the connection was given up"),
    }
}

#[test]
fn scan_of_three_different_answers_is_empty() {
    let mut slot = Connection::Connected(device(&["A: 1\n", "A: 2\n", "A: 3\n"]));
    assert_eq!(
        run_scan(&mut slot),
        Ok(scanned("No consistent pair found", Some(Telemetry::Empty)))
    );
    match slot {
        Connection::Connected(port) => {
            assert_eq!(port.written.len(), 3);
            assert_eq!(port.pauses, vec![0, 100, 100, 100, 0, 100]);
        }
        Connection::Disconnected => panic!("the connection was given up"),
    }
}

#[test]
fn scan_settles_on_the_pair_with_the_third_answer() {
    let mut slot = Connection::Connected(device(&["A: 1\n", "B: 2\n", "C: 1\n"]));
    assert_eq!(run_scan(&mut slot), Ok(scanned("A: 1", Some(Telemetry::Document(document("1"))))));
    let mut slot = Connection::Connected(device(&["A: 1\n", "B: 2\n", "C: 2\n"]));
    assert_eq!(run_scan(&mut slot), Ok(scanned("B: 2", Some(Telemetry::Document(document("2"))))));
    assert!(slot.is_connected());
}

#[test]
fn scan_treats_answers_without_document_as_equal() {
    let mut slot = Connection::Connected(device(&["ready\n", "steady\n"]));
    assert_eq!(run_scan(&mut slot), Ok(scanned("ready", None)));
    let mut slot = Connection::Connected(device(&["A: 1\n", "steady\n", "go\n"]));
    assert_eq!(run_scan(&mut slot), Ok(scanned("steady", None)));
}

#[test]
fn scan_takes_a_partial_answer_at_a_timeout() {
    let mut slot = Connection::Connected(device(&["A: 7"]));
    // The first answer has no line end: it is taken at the timeout. After it
    // the device is silent, so the second exchange brings nothing.
    assert_eq!(
        run_scan(&mut slot),
        Err(server_error("No response from Arduino on second scan"))
    );
    assert!(!slot.is_connected());
}

#[test]
fn scan_without_an_answer_fails_and_gives_the_connection_up() {
    let mut slot = Connection::Connected(device(&[]));
    assert_eq!(run_scan(&mut slot), Err(server_error("No response from Arduino on first scan")));
    assert_eq!(slot.is_connected(), false);

    let mut slot = Connection::Connected(device(&["A: 1\n", "error: busy\n"]));
    assert_eq!(run_scan(&mut slot), Err(server_error("No response from Arduino on second scan")));
    assert_eq!(slot.is_connected(), false);

    let mut slot = Connection::Connected(device(&["A: 1\n", "A: 2\n", "Error\n"]));
    assert_eq!(run_scan(&mut slot), Err(server_error("No response from Arduino on third scan")));
    assert_eq!(slot.is_connected(), false);
}

#[test]
fn commands_in_a_row_are_whole_frames_in_order() {
    let mut slot = Connection::Connected(device(&["1\n", "2\n", "3\n", "4\n"]));
    let commands = [
        make_update_string(1, 2, 3, 4, 5),
        "STOP()".to_string(),
        make_led_string(1, (2, 3, 4), true, 5),
        "STOP(2)".to_string(),
    ];
    let mut wire = Vec::new();
    for (index, command) in commands.iter().enumerate() {
        let outcome = match &mut slot {
            Connection::Connected(port) => exchange(port, command),
            Connection::Disconnected => unreachable!(),
        };
        assert_eq!(outcome, Ok(format!("{}", index + 1)));
        assert_eq!(stop_reply(&mut slot, outcome).is_ok(), true);
        wire.extend_from_slice(format!("<{}>\n", command).as_bytes());
    }
    match slot {
        Connection::Connected(port) => {
            assert_eq!(port.written.len(), commands.len());
            assert_eq!(port.written.concat(), wire);
        }
        Connection::Disconnected => panic!("the connection was given up"),
    }
}
