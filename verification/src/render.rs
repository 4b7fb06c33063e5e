//! The text of the line that reports a fault.
//!
//! The line is made of up to three segments, in this order: the location
//! segment, the message segment, and the fixed minimal text. Which of them
//! appear is decided by the configuration and by which fields the record
//! carries; the configuration alone decides how each one ends.

use vstd::prelude::*;
use vstd::string::*;
use crate::config::{config_of, Config, Mode};
use crate::decimal::{append_decimal, decimal};
use crate::record::{DiagnosticRecord, Location};

verus! {

/// `<file>:<line>:<column>`, the numbers in decimal.
pub open spec fn position(location: Location) -> Seq<char> {
    location.file@ + ":"@ + decimal(location.line as nat) + ":"@ + decimal(
        location.column as nat,
    )
}

/// The location segment. It is empty unless locations are switched on and
/// the record carries one. It ends in `": "` where a message is to follow
/// and in the line ending otherwise, whether or not the record carries a
/// message.
pub open spec fn location_segment(config: Config, location: Option<Location>) -> Seq<char> {
    if config.location && location is Some {
        "Panic at "@ + position(location->0) + (if config.message {
            ": "@
        } else {
            "\r\n"@
        })
    } else {
        Seq::empty()
    }
}

/// The message segment: the message and the line ending. It is empty unless
/// messages are switched on and the record carries one as plain text.
pub open spec fn message_segment(config: Config, message: Option<&str>) -> Seq<char> {
    if config.message && message is Some {
        message->0@ + "\r\n"@
    } else {
        Seq::empty()
    }
}

/// The fixed text of the minimal mode, empty in every other mode.
pub open spec fn minimal_segment(config: Config) -> Seq<char> {
    if !config.location && !config.message {
        "PANIC !\r\n"@
    } else {
        Seq::empty()
    }
}

/// The line that reports `record` under `config`.
pub open spec fn rendered(config: Config, record: DiagnosticRecord) -> Seq<char> {
    location_segment(config, record.location) + message_segment(config, record.message)
        + minimal_segment(config)
}

/// Renders the line that reports `record` under `config`.
pub fn render(config: Config, record: &DiagnosticRecord) -> (line: String)
    ensures
        line@ == rendered(config, *record),
{
    let mut line = String::new();
    if config.location {
        if let Some(place) = record.location {
            line.append("Panic at ");
            line.append(place.file);
            line.append(":");
            append_decimal(&mut line, place.line);
            line.append(":");
            append_decimal(&mut line, place.column);
            line.append(if config.message { ": " } else { "\r\n" });
        }
    }
    assert(line@ =~= location_segment(config, record.location));
    if config.message {
        if let Some(text) = record.message {
            line.append(text);
            line.append("\r\n");
        }
    }
    if !config.message && !config.location {
        line.append("PANIC !\r\n");
    }
    assert(line@ =~= rendered(config, *record));
    line
}

/// With both fields present, each mode gives its own shape of line: the
/// full mode `Panic at <file>:<line>:<column>: <message>`, the location mode
/// the same without colon, space and message, the message mode the message
/// alone, and the minimal mode the fixed text; each followed by carriage
/// return and line feed and by nothing else.
pub proof fn lemma_line_of_complete_record(mode: Mode, place: Location, text: &str)
    ensures
        rendered(
            config_of(mode),
            DiagnosticRecord { location: Some(place), message: Some(text) },
        ) == (match mode {
            Mode::Full => "Panic at "@ + position(place) + ": "@ + text@ + "\r\n"@,
            Mode::LocationOnly => "Panic at "@ + position(place) + "\r\n"@,
            Mode::MessageOnly => text@ + "\r\n"@,
            Mode::Minimal => "PANIC !\r\n"@,
        }),
{
    let record = DiagnosticRecord { location: Some(place), message: Some(text) };
    let line = rendered(config_of(mode), record);
    match mode {
        Mode::Full => {
            assert(line =~= "Panic at "@ + position(place) + ": "@ + text@ + "\r\n"@);
        },
        Mode::LocationOnly => {
            assert(line =~= "Panic at "@ + position(place) + "\r\n"@);
        },
        Mode::MessageOnly => {
            assert(line =~= text@ + "\r\n"@);
        },
        Mode::Minimal => {
            assert(line =~= "PANIC !\r\n"@);
        },
    }
}

/// Where locations are switched on and the record carries none, nothing
/// stands for the location: the line is the message segment and no more. In
/// the full mode a message that is there starts the line and is followed by
/// the line ending alone.
pub proof fn lemma_missing_location_leaves_no_trace(config: Config, message: Option<&str>)
    requires
        config.location,
    ensures
        rendered(config, DiagnosticRecord { location: None, message }) == message_segment(
            config,
            message,
        ),
        config.message && message is Some ==> rendered(
            config,
            DiagnosticRecord { location: None, message },
        ) == message->0@ + "\r\n"@,
        !config.message || message is None ==> rendered(
            config,
            DiagnosticRecord { location: None, message },
        ) == Seq::<char>::empty(),
{
    let line = rendered(config, DiagnosticRecord { location: None, message });
    assert(line =~= message_segment(config, message));
}

/// Where messages are switched on and the record carries no plain text,
/// nothing stands for the message: the line is the location segment and no
/// more. In the full mode that segment still ends in colon and space, and no
/// line ending follows it.
pub proof fn lemma_missing_message_leaves_no_trace(config: Config, location: Option<Location>)
    requires
        config.message,
    ensures
        rendered(config, DiagnosticRecord { location, message: None }) == location_segment(
            config,
            location,
        ),
        config.location && location is Some ==> rendered(
            config,
            DiagnosticRecord { location, message: None },
        ) == "Panic at "@ + position(location->0) + ": "@,
        !config.location || location is None ==> rendered(
            config,
            DiagnosticRecord { location, message: None },
        ) == Seq::<char>::empty(),
{
    let line = rendered(config, DiagnosticRecord { location, message: None });
    assert(line =~= location_segment(config, location));
}

/// With both switches off the record is not looked at: every record gives
/// the fixed text.
pub proof fn lemma_minimal_mode_ignores_record(config: Config, record: DiagnosticRecord)
    requires
        !config.location,
        !config.message,
    ensures
        rendered(config, record) == "PANIC !\r\n"@,
{
    assert(rendered(config, record) =~= "PANIC !\r\n"@);
}

} // verus!
