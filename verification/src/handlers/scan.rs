use crate::config::SCAN_PAUSE;
use crate::handlers::reply::{
    answered, exchange_view, fail, failure, failure_view, is_error_response, is_error_text,
    not_connected, not_connected_failure, slot_after, INTERNAL_SERVER_ERROR,
};
use crate::models::responses::{ErrorResponse, ErrorView, SuccessResponse, SuccessView, Telemetry};
use crate::models::state::Connection;
use crate::utils::formatters::{format_response, make_scan_string, parsed_response, scan_command};
use crate::utils::json::{readings_agree, same_reading};
use vstd::prelude::*;

verus! {

/// One answer of the device to a scan command, with the document that was
/// read from it, if it held one.
#[derive(Debug, PartialEq)]
pub struct Reading {
    pub response: String,
    pub data: Option<serde_json::Value>,
}

/// How far a scan has come: which exchange is awaited, with the readings
/// taken so far.
#[derive(Debug, PartialEq)]
pub enum ScanState {
    First,
    Second(Reading),
    Third(Reading, Reading),
}

/// The next exchange of a scan: wait for `pause` milliseconds, send
/// `command`, and hand the outcome to `scan_reply` together with `state`.
#[derive(Debug, PartialEq)]
pub struct ScanRound {
    pub command: String,
    pub pause: u64,
    pub state: ScanState,
}

/// What a scan asks for next.
#[derive(Debug, PartialEq)]
pub enum ScanStep {
    /// Another exchange is needed.
    Again(ScanRound),
    /// The scan is over, with this answer.
    Done(Result<SuccessResponse, (u16, ErrorResponse)>),
}

/// A `Reading` with its text as a sequence of characters.
pub struct ReadingView {
    pub response: Seq<char>,
    pub data: Option<serde_json::Value>,
}

/// A `ScanState` with its texts as sequences of characters.
pub enum ScanStateView {
    First,
    Second(ReadingView),
    Third(ReadingView, ReadingView),
}

/// A `ScanRound` with its texts as sequences of characters.
pub struct ScanRoundView {
    pub command: Seq<char>,
    pub pause: u64,
    pub state: ScanStateView,
}

/// A `ScanStep` with its texts as sequences of characters.
pub enum ScanStepView {
    Again(ScanRoundView),
    Done(Result<SuccessView, (u16, ErrorView)>),
}

impl View for Reading {
    type V = ReadingView;

    open spec fn view(&self) -> ReadingView {
        ReadingView { response: self.response@, data: self.data }
    }
}

impl View for ScanState {
    type V = ScanStateView;

    open spec fn view(&self) -> ScanStateView {
        match self {
            ScanState::First => ScanStateView::First,
            ScanState::Second(first) => ScanStateView::Second(first@),
            ScanState::Third(first, second) => ScanStateView::Third(first@, second@),
        }
    }
}

impl View for ScanRound {
    type V = ScanRoundView;

    open spec fn view(&self) -> ScanRoundView {
        ScanRoundView { command: self.command@, pause: self.pause, state: self.state@ }
    }
}

impl View for ScanStep {
    type V = ScanStepView;

    open spec fn view(&self) -> ScanStepView {
        match self {
            ScanStep::Again(round) => ScanStepView::Again(round@),
            ScanStep::Done(Ok(body)) => ScanStepView::Done(Ok(body@)),
            ScanStep::Done(Err(refusal)) => ScanStepView::Done(Err(failure_view(*refusal))),
        }
    }
}

/// The beginning of a scan with its texts as sequences of characters.
pub open spec fn round_view(begun: Result<ScanRound, (u16, ErrorResponse)>) -> Result<
    ScanRoundView,
    (u16, ErrorView),
> {
    match begun {
        Ok(round) => Ok(round@),
        Err(refusal) => Err(failure_view(refusal)),
    }
}

/// How a scan begins: with its first exchange, due at once, or, without a
/// connection, with a refusal.
pub open spec fn scan_plan<H>(slot: Connection<H>) -> Result<ScanRoundView, (u16, ErrorView)> {
    if slot is Connected {
        Ok(ScanRoundView { command: scan_command(), pause: 0, state: ScanStateView::First })
    } else {
        Err(not_connected_failure())
    }
}

/// The reading that a response gives: the response itself, and its document
/// where it parses.
pub open spec fn reading_of(response: Seq<char>) -> ReadingView {
    ReadingView {
        response,
        data: match parsed_response(response) {
            Ok(document) => Some(document),
            Err(_) => None,
        },
    }
}

/// The message for an exchange of a scan that brought no answer.
pub open spec fn no_answer_text(state: ScanStateView) -> Seq<char> {
    match state {
        ScanStateView::First => "No response from Arduino on first scan"@,
        ScanStateView::Second(_) => "No response from Arduino on second scan"@,
        ScanStateView::Third(_, _) => "No response from Arduino on third scan"@,
    }
}

/// The answer of a scan that settled on `reading`.
pub open spec fn agreed_report(reading: ReadingView) -> SuccessView {
    SuccessView {
        status: "success"@,
        sent: None,
        arduino_response: Some(reading.response),
        message: None,
        parameters: None,
        data: match reading.data {
            Some(document) => Some(Telemetry::Document(document)),
            None => None,
        },
    }
}

/// The answer of a scan in which no two of three readings agreed.
pub open spec fn no_pair_report() -> SuccessView {
    SuccessView {
        status: "success"@,
        sent: None,
        arduino_response: Some("No consistent pair found"@),
        message: None,
        parameters: None,
        data: Some(Telemetry::Empty),
    }
}

/// The next exchange of a scan that goes on.
pub open spec fn next_round(pause: u64, state: ScanStateView) -> ScanStepView {
    ScanStepView::Again(ScanRoundView { command: scan_command(), pause, state })
}

/// One step of a scan: what follows from the outcome of the awaited
/// exchange.
///
/// An exchange without an answer ends the scan with a failure. The second
/// reading ends it when it agrees with the first. The third reading ends it
/// in any case: with the first reading if the third agrees with it, else
/// with the second if the third agrees with that, else with an empty result.
pub open spec fn scan_step(state: ScanStateView, exchange: Result<Seq<char>, Seq<char>>) -> ScanStepView {
    if !answered(exchange) {
        ScanStepView::Done(Err(failure(INTERNAL_SERVER_ERROR, no_answer_text(state))))
    } else {
        let reading = reading_of(exchange->Ok_0);
        match state {
            ScanStateView::First => next_round(SCAN_PAUSE, ScanStateView::Second(reading)),
            ScanStateView::Second(first) => if same_reading(first.data, reading.data) {
                ScanStepView::Done(Ok(agreed_report(first)))
            } else {
                next_round(0, ScanStateView::Third(first, reading))
            },
            ScanStateView::Third(first, second) => if same_reading(first.data, reading.data) {
                ScanStepView::Done(Ok(agreed_report(first)))
            } else if same_reading(second.data, reading.data) {
                ScanStepView::Done(Ok(agreed_report(second)))
            } else {
                ScanStepView::Done(Ok(no_pair_report()))
            },
        }
    }
}

fn agreed(reading: Reading) -> (body: SuccessResponse)
    ensures
        body@ == agreed_report(reading@),
{
    SuccessResponse {
        status: String::from_str("success"),
        sent: None,
        arduino_response: Some(reading.response),
        message: None,
        parameters: None,
        data: match reading.data {
            Some(document) => Some(Telemetry::Document(document)),
            None => None,
        },
    }
}

fn no_pair() -> (body: SuccessResponse)
    ensures
        body@ == no_pair_report(),
{
    SuccessResponse {
        status: String::from_str("success"),
        sent: None,
        arduino_response: Some(String::from_str("No consistent pair found")),
        message: None,
        parameters: None,
        data: Some(Telemetry::Empty),
    }
}

fn round(pause: u64, state: ScanState) -> (step: ScanStep)
    ensures
        step@ == next_round(pause, state@),
{
    ScanStep::Again(ScanRound { command: make_scan_string(), pause, state })
}

fn no_answer(state: &ScanState) -> (message: String)
    ensures
        message@ == no_answer_text(state@),
{
    match state {
        ScanState::First => String::from_str("No response from Arduino on first scan"),
        ScanState::Second(_) => String::from_str("No response from Arduino on second scan"),
        ScanState::Third(_, _) => String::from_str("No response from Arduino on third scan"),
    }
}

/// Begins a scan.
///
/// Without a connection the scan is refused and nothing is sent. Otherwise
/// the first exchange is due at once.
pub fn scan<H>(slot: &Connection<H>) -> (begun: Result<ScanRound, (u16, ErrorResponse)>)
    ensures
        round_view(begun) == scan_plan(*slot),
{
    if !slot.is_connected() {
        return Err(not_connected());
    }
    Ok(ScanRound { command: make_scan_string(), pause: 0, state: ScanState::First })
}

/// Takes the outcome of the exchange that a scan was waiting for.
///
/// The device is asked up to three times, and the scan reports a reading on
/// which two answers agree. The connection is given up when the exchange
/// brought no answer.
pub fn scan_reply<H>(slot: &mut Connection<H>, state: ScanState, exchange: Result<String, String>) -> (step:
    ScanStep)
    ensures
        *final(slot) == slot_after(*old(slot), exchange_view(exchange)),
        step@ == scan_step(state@, exchange_view(exchange)),
{
    let response = match exchange {
        Ok(response) => {
            if is_error_response(response.as_str()) {
                slot.disconnect();
                return ScanStep::Done(Err(fail(INTERNAL_SERVER_ERROR, no_answer(&state))));
            }
            response
        },
        Err(_) => {
            slot.disconnect();
            return ScanStep::Done(Err(fail(INTERNAL_SERVER_ERROR, no_answer(&state))));
        },
    };
    let data = match format_response(response.as_str()) {
        Ok(document) => Some(document),
        Err(_) => None,
    };
    let reading = Reading { response, data };
    match state {
        ScanState::First => round(SCAN_PAUSE, ScanState::Second(reading)),
        ScanState::Second(first) => {
            if readings_agree(&first.data, &reading.data) {
                ScanStep::Done(Ok(agreed(first)))
            } else {
                round(0, ScanState::Third(first, reading))
            }
        },
        ScanState::Third(first, second) => {
            if readings_agree(&first.data, &reading.data) {
                ScanStep::Done(Ok(agreed(first)))
            } else if readings_agree(&second.data, &reading.data) {
                ScanStep::Done(Ok(agreed(second)))
            } else {
                ScanStep::Done(Ok(no_pair()))
            }
        },
    }
}

/// A response agrees with itself, whether it holds a document or not.
pub proof fn lemma_repeated_answer_agrees(answer: Seq<char>)
    ensures
        same_reading(reading_of(answer).data, reading_of(answer).data),
{
}

/// A scan whose first two readings agree settles on the first: the second
/// answer ends the scan, which reports the first answer and the document
/// read from it. No third exchange takes place. Two answers of the same text
/// always agree.
pub proof fn lemma_scan_settles_on_agreement(first: Seq<char>, second: Seq<char>)
    requires
        !is_error_text(first),
        !is_error_text(second),
        first == second || same_reading(reading_of(first).data, reading_of(second).data),
    ensures
        scan_step(ScanStateView::First, Ok(first)) == next_round(
            SCAN_PAUSE,
            ScanStateView::Second(reading_of(first)),
        ),
        scan_step(ScanStateView::Second(reading_of(first)), Ok(second)) == ScanStepView::Done(
            Ok(agreed_report(reading_of(first))),
        ),
{
}

/// A scan whose three readings differ from one another ends with the third
/// answer and reports the empty result.
pub proof fn lemma_scan_without_agreement_is_empty(
    first: Seq<char>,
    second: Seq<char>,
    third: Seq<char>,
)
    requires
        !is_error_text(first),
        !is_error_text(second),
        !is_error_text(third),
        !same_reading(reading_of(first).data, reading_of(second).data),
        !same_reading(reading_of(first).data, reading_of(third).data),
        !same_reading(reading_of(second).data, reading_of(third).data),
    ensures
        scan_step(ScanStateView::First, Ok(first)) == next_round(
            SCAN_PAUSE,
            ScanStateView::Second(reading_of(first)),
        ),
        scan_step(ScanStateView::Second(reading_of(first)), Ok(second)) == next_round(
            0,
            ScanStateView::Third(reading_of(first), reading_of(second)),
        ),
        scan_step(ScanStateView::Third(reading_of(first), reading_of(second)), Ok(third))
            == ScanStepView::Done(Ok(no_pair_report())),
{
}

} // verus!
