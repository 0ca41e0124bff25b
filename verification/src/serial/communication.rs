use crate::config::{COMMAND_SETTLE, DRAIN_PAUSE};
use vstd::prelude::*;
use vstd::string::StringSliceAdditionalSpecFns;
use vstd::utf8::{decode_utf8, encode_utf8, valid_utf8};

verus! {

/// What it takes to send one command: the bytes to write, and the pause, in
/// milliseconds, between the write and the first read.
#[derive(Debug, PartialEq, Eq)]
pub struct Transmission {
    pub frame: Vec<u8>,
    pub settle: u64,
}

/// What one read of a single byte brought.
#[derive(Debug, PartialEq, Eq)]
pub enum ReadEvent {
    /// The byte that was read.
    Byte(u8),
    /// The read returned without a byte.
    Empty,
    /// No byte came within the timeout.
    TimedOut,
    /// The read failed, for the reason given.
    Failed(String),
}

/// What the reading of a response asks for next.
#[derive(Debug, PartialEq, Eq)]
pub enum ReadStep {
    /// Read another byte.
    Continue,
    /// The reading is over: the response, or why there is none.
    Done(Result<String, String>),
}

/// What one read brought while the boot output of the device is drained.
#[derive(Debug, PartialEq, Eq)]
pub enum DrainEvent {
    /// The bytes that were read, none if the read returned empty.
    Bytes(Vec<u8>),
    /// The read timed out or failed.
    Failed,
}

/// What the draining asks for next.
#[derive(Debug, PartialEq, Eq)]
pub enum DrainStep {
    /// Wait for `pause` milliseconds, then read again.
    Again { pause: u64 },
    /// Nothing more is to be read.
    Done,
}

/// The frame of a command on the wire: `<`, the command, `>`, and a line
/// feed.
pub open spec fn framed(command: Seq<u8>) -> Seq<u8> {
    seq![0x3Cu8] + command + seq![0x3Eu8, 0x0Au8]
}

/// Message for a command that could not be written.
pub open spec fn send_failure_text(reason: Seq<char>) -> Seq<char> {
    "Fehler beim Senden: "@ + reason
}

/// Message for a read that failed.
pub open spec fn read_failure_text(reason: Seq<char>) -> Seq<char> {
    "Error while reading: "@ + reason
}

/// Whether a character is white space: the characters with the Unicode
/// property `White_Space`.
pub open spec fn is_space(c: char) -> bool {
    let code = c as u32;
    ||| 0x09 <= code <= 0x0D
    ||| code == 0x20
    ||| code == 0x85
    ||| code == 0xA0
    ||| code == 0x1680
    ||| 0x2000 <= code <= 0x200A
    ||| code == 0x2028
    ||| code == 0x2029
    ||| code == 0x202F
    ||| code == 0x205F
    ||| code == 0x3000
}

/// A text without the white space at its start.
pub open spec fn trimmed_start(text: Seq<char>) -> Seq<char>
    decreases text.len(),
{
    if text.len() > 0 && is_space(text[0]) {
        trimmed_start(text.drop_first())
    } else {
        text
    }
}

/// A text without the white space at its end.
pub open spec fn trimmed_end(text: Seq<char>) -> Seq<char>
    decreases text.len(),
{
    if text.len() > 0 && is_space(text.last()) {
        trimmed_end(text.drop_last())
    } else {
        text
    }
}

/// A text without the white space at its start and at its end.
pub open spec fn trimmed(text: Seq<char>) -> Seq<char> {
    trimmed_end(trimmed_start(text))
}

/// The text that `String::from_utf8_lossy` reads from `bytes`: each
/// ill-formed part stands as U+FFFD.
pub uninterp spec fn utf8_lossy(bytes: Seq<u8>) -> Seq<char>;

/// The response that a buffer of received bytes holds.
pub open spec fn response_text(buffer: Seq<u8>) -> Seq<char> {
    trimmed(utf8_lossy(buffer))
}

/// Calls `String::from_utf8_lossy`, which reads bytes as UTF-8 and puts
/// U+FFFD in place of each ill-formed part. The contract names the result
/// `utf8_lossy`, and adds that well-formed bytes are read as they are.
#[verifier::external_body]
fn lossy_text(bytes: &[u8]) -> (text: String)
    ensures
        text@ == utf8_lossy(bytes@),
        valid_utf8(bytes@) ==> text@ == decode_utf8(bytes@),
{
    String::from_utf8_lossy(bytes).into_owned()
}

/// Calls `std::str::from_utf8`, which accepts exactly the well-formed UTF-8
/// byte sequences and reads them as text.
#[verifier::external_body]
fn strict_text(bytes: &[u8]) -> (text: Option<&str>)
    ensures
        match text {
            Some(t) => valid_utf8(bytes@) && t@ == decode_utf8(bytes@),
            None => !valid_utf8(bytes@),
        },
{
    std::str::from_utf8(bytes).ok()
}

/// Tells whether a character is white space.
pub fn is_whitespace(c: char) -> (space: bool)
    ensures
        space == is_space(c),
{
    let code = c as u32;
    (0x09 <= code && code <= 0x0D) || code == 0x20 || code == 0x85 || code == 0xA0 || code
        == 0x1680 || (0x2000 <= code && code <= 0x200A) || code == 0x2028 || code == 0x2029
        || code == 0x202F || code == 0x205F || code == 0x3000
}

proof fn lemma_trimmed_start(text: Seq<char>, first: int)
    requires
        0 <= first <= text.len(),
        forall|j: int| 0 <= j < first ==> is_space(text[j]),
        first < text.len() ==> !is_space(text[first]),
    ensures
        trimmed_start(text) == text.skip(first),
    decreases first,
{
    if first == 0 {
        assert(text.skip(0) =~= text);
    } else {
        let rest = text.drop_first();
        assert forall|j: int| 0 <= j < first - 1 implies is_space(rest[j]) by {
            assert(rest[j] == text[j + 1]);
        }
        lemma_trimmed_start(rest, first - 1);
        assert(rest.skip(first - 1) =~= text.skip(first));
    }
}

proof fn lemma_trimmed_end(text: Seq<char>, end: int)
    requires
        0 <= end <= text.len(),
        forall|j: int| end <= j < text.len() ==> is_space(text[j]),
        end > 0 ==> !is_space(text[end - 1]),
    ensures
        trimmed_end(text) == text.take(end),
    decreases text.len() - end,
{
    if end == text.len() {
        assert(text.take(end) =~= text);
    } else {
        let rest = text.drop_last();
        lemma_trimmed_end(rest, end);
        assert(rest.take(end) =~= text.take(end));
    }
}

/// Removes the white space at the start and at the end of a text.
pub fn trim(text: &str) -> (inner: &str)
    ensures
        inner@ == trimmed(text@),
{
    let count = text.unicode_len();
    let mut at: usize = 0;
    let mut first: usize = 0;
    let mut end: usize = 0;
    let mut leading: bool = true;
    for c in it: text.chars()
        invariant
            at == it.index(),
            it.seq() == text@,
            count == text@.len(),
            first <= end <= at,
            leading ==> first == at && end == at,
            forall|j: int| 0 <= j < first ==> is_space(text@[j]),
            !leading ==> first < end && !is_space(text@[first as int]) && !is_space(
                text@[end - 1],
            ),
            forall|j: int| end <= j < at ==> is_space(text@[j]),
    {
        if is_whitespace(c) {
            if leading {
                first = at + 1;
                end = at + 1;
            }
        } else {
            leading = false;
            end = at + 1;
        }
        at = at + 1;
    }
    proof {
        let front = text@.skip(first as int);
        lemma_trimmed_start(text@, first as int);
        assert forall|j: int| end - first <= j < front.len() implies is_space(front[j]) by {
            assert(front[j] == text@[j + first]);
        }
        lemma_trimmed_end(front, end - first);
        assert(front.take(end - first) =~= text@.subrange(first as int, end as int));
    }
    text.substring_char(first, end)
}

fn buffer_text(buffer: &Vec<u8>) -> (response: String)
    ensures
        response@ == response_text(buffer@),
{
    let text = lossy_text(buffer.as_slice());
    String::from_str(trim(text.as_str()))
}

/// Plans the sending of a command: the command goes on the wire inside its
/// frame, and the response is read after a short pause.
pub fn send_data(data: &str) -> (transmission: Transmission)
    ensures
        transmission.frame@ == framed(encode_utf8(data@)),
        transmission.settle == COMMAND_SETTLE,
{
    let mut frame: Vec<u8> = Vec::new();
    frame.push(0x3C);
    frame.extend_from_slice(data.as_bytes());
    frame.push(0x3E);
    frame.push(0x0A);
    assert(frame@ =~= framed(data.spec_bytes()));
    Transmission { frame, settle: COMMAND_SETTLE }
}

/// Words the failure to write a command, given the reason.
pub fn send_failure(reason: &str) -> (message: String)
    ensures
        message@ == send_failure_text(reason@),
{
    let mut message = String::from_str("Fehler beim Senden: ");
    message.append(reason);
    message
}

/// Takes the outcome of one single-byte read while a response is read.
///
/// Every byte goes to the buffer. A line feed ends the reading with the
/// buffer as the response, white space at both ends removed. A timeout ends
/// it too: with what the buffer holds, if it holds anything, and with the
/// failure `Timeout` if it holds nothing. A failed read ends it with that
/// failure. A read that brought nothing changes nothing.
pub fn read_serial(buffer: &mut Vec<u8>, event: ReadEvent) -> (step: ReadStep)
    ensures
        match event {
            ReadEvent::Byte(byte) => {
                &&& final(buffer)@ == old(buffer)@.push(byte)
                &&& if byte == 0x0A {
                    step matches ReadStep::Done(Ok(response)) && response@ == response_text(
                        final(buffer)@,
                    )
                } else {
                    step is Continue
                }
            },
            ReadEvent::Empty => final(buffer)@ == old(buffer)@ && step is Continue,
            ReadEvent::TimedOut => {
                &&& final(buffer)@ == old(buffer)@
                &&& if old(buffer)@.len() > 0 {
                    step matches ReadStep::Done(Ok(response)) && response@ == response_text(
                        old(buffer)@,
                    )
                } else {
                    step matches ReadStep::Done(Err(message)) && message@ == "Timeout"@
                }
            },
            ReadEvent::Failed(reason) => {
                &&& final(buffer)@ == old(buffer)@
                &&& step matches ReadStep::Done(Err(message)) && message@ == read_failure_text(
                    reason@,
                )
            },
        },
{
    match event {
        ReadEvent::Byte(byte) => {
            buffer.push(byte);
            if byte == 0x0A {
                ReadStep::Done(Ok(buffer_text(buffer)))
            } else {
                ReadStep::Continue
            }
        },
        ReadEvent::Empty => ReadStep::Continue,
        ReadEvent::TimedOut => {
            if buffer.len() > 0 {
                ReadStep::Done(Ok(buffer_text(buffer)))
            } else {
                ReadStep::Done(Err(String::from_str("Timeout")))
            }
        },
        ReadEvent::Failed(reason) => {
            let mut message = String::from_str("Error while reading: ");
            message.append(reason.as_str());
            ReadStep::Done(Err(message))
        },
    }
}

/// Takes the outcome of one read while the boot output of the device is
/// drained.
///
/// Bytes that are well-formed UTF-8 are added to the text collected so far;
/// other bytes are dropped. The draining goes on after a pause as long as
/// reads bring bytes, and ends with the first read that brings none.
pub fn get_all_responses(response: &mut String, event: DrainEvent) -> (step: DrainStep)
    ensures
        match event {
            DrainEvent::Bytes(bytes) if bytes@.len() > 0 => {
                &&& step == (DrainStep::Again { pause: DRAIN_PAUSE })
                &&& final(response)@ == if valid_utf8(bytes@) {
                    old(response)@ + decode_utf8(bytes@)
                } else {
                    old(response)@
                }
            },
            _ => step == DrainStep::Done && final(response)@ == old(response)@,
        },
{
    match event {
        DrainEvent::Bytes(bytes) => {
            if bytes.len() == 0 {
                return DrainStep::Done;
            }
            match strict_text(bytes.as_slice()) {
                Some(text) => {
                    response.append(text);
                },
                None => {},
            }
            DrainStep::Again { pause: DRAIN_PAUSE }
        },
        DrainEvent::Failed => DrainStep::Done,
    }
}

} // verus!
