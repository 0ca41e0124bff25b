use crate::utils::json::{error_text, json_error_text, json_parse, parse_json};
use vstd::prelude::*;

verus! {

/// The character that stands for the digit `d`, for `0 <= d <= 9`.
pub open spec fn digit_char(d: int) -> char {
    if d == 0 {
        '0'
    } else if d == 1 {
        '1'
    } else if d == 2 {
        '2'
    } else if d == 3 {
        '3'
    } else if d == 4 {
        '4'
    } else if d == 5 {
        '5'
    } else if d == 6 {
        '6'
    } else if d == 7 {
        '7'
    } else if d == 8 {
        '8'
    } else {
        '9'
    }
}

/// The decimal digits of `n`, most significant first, without leading zeros.
pub open spec fn decimal_digits(n: nat) -> Seq<char>
    decreases n,
{
    if n < 10 {
        seq![digit_char(n as int)]
    } else {
        decimal_digits(n / 10).push(digit_char((n % 10) as int))
    }
}

/// The decimal text of `n`: a minus sign for a negative number, then its
/// digits.
pub open spec fn decimal(n: int) -> Seq<char> {
    if n < 0 {
        seq!['-'] + decimal_digits((-n) as nat)
    } else {
        decimal_digits(n as nat)
    }
}

fn digit_text(d: u32) -> (text: &'static str)
    requires
        d < 10,
    ensures
        text@ == seq![digit_char(d as int)],
{
    proof {
        reveal_strlit("0");
        reveal_strlit("1");
        reveal_strlit("2");
        reveal_strlit("3");
        reveal_strlit("4");
        reveal_strlit("5");
        reveal_strlit("6");
        reveal_strlit("7");
        reveal_strlit("8");
        reveal_strlit("9");
    }
    if d == 0 {
        "0"
    } else if d == 1 {
        "1"
    } else if d == 2 {
        "2"
    } else if d == 3 {
        "3"
    } else if d == 4 {
        "4"
    } else if d == 5 {
        "5"
    } else if d == 6 {
        "6"
    } else if d == 7 {
        "7"
    } else if d == 8 {
        "8"
    } else {
        "9"
    }
}

fn push_digits(out: &mut String, n: u32)
    ensures
        final(out)@ == old(out)@ + decimal_digits(n as nat),
    decreases n,
{
    if n >= 10 {
        push_digits(out, n / 10);
    }
    out.append(digit_text(n % 10));
}

fn push_decimal(out: &mut String, n: i32)
    ensures
        final(out)@ == old(out)@ + decimal(n as int),
{
    if n < 0 {
        proof {
            reveal_strlit("-");
        }
        out.append("-");
        let magnitude: i64 = -(n as i64);
        push_digits(out, magnitude as u32);
    } else {
        push_digits(out, n as u32);
    }
}

/// Text of the command that sets the set points of one EEPROM slot. The
/// device reads the arguments by position: slot first, `active` last.
pub open spec fn update_command(power: int, charge: int, time: int, eeprom: int, active: int) -> Seq<
    char,
> {
    "UPDATE("@ + decimal(eeprom) + ", "@ + decimal(power) + ", "@ + decimal(charge) + ", "@
        + decimal(time) + ", "@ + decimal(active) + ")"@
}

/// Text of the command that sets one LED. The direction goes as `1`
/// (forward) or `0`, before the three colour components.
pub open spec fn led_command(
    led_id: int,
    color: (u8, u8, u8),
    forward: bool,
    pulse_frequenz: int,
) -> Seq<char> {
    "LED("@ + decimal(led_id) + ", "@ + decimal(if forward {
        1
    } else {
        0
    }) + ", "@ + decimal(color.0 as int) + ", "@ + decimal(color.1 as int) + ", "@ + decimal(
        color.2 as int,
    ) + ", "@ + decimal(pulse_frequenz) + ")"@
}

/// Text of the command that stops one EEPROM slot, or all of them.
pub open spec fn stop_command(eeprom: Option<i32>) -> Seq<char> {
    match eeprom {
        Some(slot) => "STOP("@ + decimal(slot as int) + ")"@,
        None => "STOP()"@,
    }
}

/// Text of the command that asks for a reading.
pub open spec fn scan_command() -> Seq<char> {
    "SCAN()"@
}

/// Formats an update command. The result carries no frame delimiters: those
/// are added when the command is sent.
pub fn make_update_string(power: i32, charge: i32, time: i32, eeprom: i32, active: i32) -> (command:
    String)
    ensures
        command@ == update_command(
            power as int,
            charge as int,
            time as int,
            eeprom as int,
            active as int,
        ),
{
    let mut command = String::from_str("UPDATE(");
    push_decimal(&mut command, eeprom);
    command.append(", ");
    push_decimal(&mut command, power);
    command.append(", ");
    push_decimal(&mut command, charge);
    command.append(", ");
    push_decimal(&mut command, time);
    command.append(", ");
    push_decimal(&mut command, active);
    command.append(")");
    command
}

/// Formats an LED command.
pub fn make_led_string(led_id: i32, color: (u8, u8, u8), forward: bool, pulse_frequenz: i32) -> (command:
    String)
    ensures
        command@ == led_command(led_id as int, color, forward, pulse_frequenz as int),
{
    let mut command = String::from_str("LED(");
    push_decimal(&mut command, led_id);
    command.append(", ");
    push_digits(&mut command, if forward { 1 } else { 0 });
    command.append(", ");
    push_digits(&mut command, color.0 as u32);
    command.append(", ");
    push_digits(&mut command, color.1 as u32);
    command.append(", ");
    push_digits(&mut command, color.2 as u32);
    command.append(", ");
    push_decimal(&mut command, pulse_frequenz);
    command.append(")");
    command
}

/// Formats a stop command: for one EEPROM slot, or for all of them.
pub fn make_stop_string(eeprom: Option<i32>) -> (command: String)
    ensures
        command@ == stop_command(eeprom),
{
    match eeprom {
        Some(slot) => {
            let mut command = String::from_str("STOP(");
            push_decimal(&mut command, slot);
            command.append(")");
            command
        },
        None => String::from_str("STOP()"),
    }
}

/// Formats the scan command.
pub fn make_scan_string() -> (command: String)
    ensures
        command@ == scan_command(),
{
    String::from_str("SCAN()")
}

/// The text after the first `:` of `response`, if there is one.
pub open spec fn payload_of(response: Seq<char>) -> Option<Seq<char>>
    decreases response.len(),
{
    if response.len() == 0 {
        None
    } else if response[0] == ':' {
        Some(response.drop_first())
    } else {
        payload_of(response.drop_first())
    }
}

/// What a response parses to: the document behind the first `:`, or why
/// there is none.
pub open spec fn parsed_response(response: Seq<char>) -> Result<serde_json::Value, Seq<char>> {
    match payload_of(response) {
        None => Err("Invalid response format"@),
        Some(payload) => match json_parse(payload) {
            Ok(document) => Ok(document),
            Err(error) => Err(parse_failure_text(json_error_text(error))),
        },
    }
}

/// Message for a payload that is no JSON document.
pub open spec fn parse_failure_text(reason: Seq<char>) -> Seq<char> {
    "JSON parse error: "@ + reason
}

proof fn lemma_payload_after_colon(response: Seq<char>, at: int)
    requires
        0 <= at < response.len(),
        response[at] == ':',
        forall|j: int| 0 <= j < at ==> response[j] != ':',
    ensures
        payload_of(response) == Some(response.skip(at + 1)),
    decreases at,
{
    if at == 0 {
        assert(response.drop_first() =~= response.skip(1));
    } else {
        let rest = response.drop_first();
        assert forall|j: int| 0 <= j < at - 1 implies rest[j] != ':' by {
            assert(rest[j] == response[j + 1]);
        }
        lemma_payload_after_colon(rest, at - 1);
        assert(rest.skip(at) =~= response.skip(at + 1));
    }
}

proof fn lemma_payload_without_colon(response: Seq<char>)
    requires
        forall|j: int| 0 <= j < response.len() ==> response[j] != ':',
    ensures
        payload_of(response) is None,
    decreases response.len(),
{
    if response.len() > 0 {
        let rest = response.drop_first();
        assert forall|j: int| 0 <= j < rest.len() implies rest[j] != ':' by {
            assert(rest[j] == response[j + 1]);
        }
        lemma_payload_without_colon(rest);
    }
}

/// Splits a response at its first `:` and returns what follows it. A
/// telemetry response has the form `TAG: <json>`.
pub fn payload(response: &str) -> (rest: Option<&str>)
    ensures
        match rest {
            Some(text) => payload_of(response@) == Some(text@),
            None => payload_of(response@) is None,
        },
{
    let count = response.unicode_len();
    let mut at: usize = 0;
    for c in it: response.chars()
        invariant
            at == it.index(),
            it.seq() == response@,
            count == response@.len(),
            forall|j: int| 0 <= j < at ==> response@[j] != ':',
    {
        if c == ':' {
            proof {
                lemma_payload_after_colon(response@, at as int);
            }
            return Some(response.substring_char(at + 1, count));
        }
        at = at + 1;
    }
    proof {
        lemma_payload_without_colon(response@);
    }
    None
}

/// Words the failure to parse a payload, given the parser's own message.
pub fn parse_failure(reason: &str) -> (message: String)
    ensures
        message@ == parse_failure_text(reason@),
{
    let mut message = String::from_str("JSON parse error: ");
    message.append(reason);
    message
}

/// Parses a telemetry response: everything after the first `:` is read as a
/// JSON document.
///
/// Fails with `Invalid response format` when the response holds no `:`, and
/// with `JSON parse error: ` and the parser's message when what follows the
/// `:` is no JSON document.
pub fn format_response(response: &str) -> (parsed: Result<serde_json::Value, String>)
    ensures
        match parsed {
            Ok(document) => parsed_response(response@) == Ok::<serde_json::Value, Seq<char>>(
                document,
            ),
            Err(message) => parsed_response(response@) == Err::<serde_json::Value, Seq<char>>(
                message@,
            ),
        },
{
    match payload(response) {
        None => Err(String::from_str("Invalid response format")),
        Some(text) => match parse_json(text) {
            Ok(document) => Ok(document),
            Err(error) => {
                let reason = error_text(&error);
                Err(parse_failure(reason.as_str()))
            },
        },
    }
}

/// Whether a character is one of those that frame a command on the wire.
pub open spec fn is_delimiter(c: char) -> bool {
    c == '<' || c == '>' || c == '\n'
}

/// Whether a text holds none of the characters that frame a command.
pub open spec fn without_delimiters(text: Seq<char>) -> bool {
    forall|i: int| 0 <= i < text.len() ==> !is_delimiter(#[trigger] text[i])
}

proof fn lemma_digits_without_delimiters(n: nat)
    ensures
        without_delimiters(decimal_digits(n)),
    decreases n,
{
    if n >= 10 {
        lemma_digits_without_delimiters(n / 10);
    }
}

proof fn lemma_decimal_without_delimiters(n: int)
    ensures
        without_delimiters(decimal(n)),
{
    if n < 0 {
        lemma_digits_without_delimiters((-n) as nat);
    } else {
        lemma_digits_without_delimiters(n as nat);
    }
}

/// No command holds a frame delimiter, whatever its arguments: the frame is
/// added when a command is sent, never by the formatter.
pub proof fn lemma_commands_without_delimiters(
    power: int,
    charge: int,
    time: int,
    eeprom: int,
    active: int,
    led_id: int,
    color: (u8, u8, u8),
    forward: bool,
    pulse_frequenz: int,
    target: Option<i32>,
)
    ensures
        without_delimiters(update_command(power, charge, time, eeprom, active)),
        without_delimiters(led_command(led_id, color, forward, pulse_frequenz)),
        without_delimiters(stop_command(target)),
        without_delimiters(scan_command()),
{
    reveal_strlit("UPDATE(");
    reveal_strlit("LED(");
    reveal_strlit("STOP(");
    reveal_strlit("STOP()");
    reveal_strlit("SCAN()");
    reveal_strlit(", ");
    reveal_strlit(")");
    lemma_decimal_without_delimiters(power);
    lemma_decimal_without_delimiters(charge);
    lemma_decimal_without_delimiters(time);
    lemma_decimal_without_delimiters(eeprom);
    lemma_decimal_without_delimiters(active);
    lemma_decimal_without_delimiters(led_id);
    lemma_decimal_without_delimiters(if forward {
        1
    } else {
        0
    });
    lemma_decimal_without_delimiters(color.0 as int);
    lemma_decimal_without_delimiters(color.1 as int);
    lemma_decimal_without_delimiters(color.2 as int);
    lemma_decimal_without_delimiters(pulse_frequenz);
    if let Some(slot) = target {
        lemma_decimal_without_delimiters(slot as int);
    }
}

} // verus!
