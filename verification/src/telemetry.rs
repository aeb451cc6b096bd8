//! Telemetry events raised while classifying errors.  The library only
//! builds the event value; the surrounding binary forwards it to
//! whatever monitoring sink is configured.

use vstd::prelude::*;

verus! {

/// Severity of a telemetry event.
#[derive(Clone, Copy, Debug, PartialEq, Eq, Structural)]
pub enum CaptureLevel {
    Warning,
    Error,
    Fatal,
}

/// A message captured for the monitoring sink.
#[derive(Clone, Debug, PartialEq)]
pub struct CapturedMessage {
    pub level: CaptureLevel,
    pub text: String,
}

/// Captures `msg` at warning severity.
pub fn capture_warning(msg: &str) -> (r: CapturedMessage)
    ensures
        r.level == CaptureLevel::Warning,
        r.text@ == msg@,
{
    CapturedMessage { level: CaptureLevel::Warning, text: msg.to_owned() }
}

/// Captures `msg` at error severity.
pub fn capture_error(msg: &str) -> (r: CapturedMessage)
    ensures
        r.level == CaptureLevel::Error,
        r.text@ == msg@,
{
    CapturedMessage { level: CaptureLevel::Error, text: msg.to_owned() }
}

/// Captures `msg` at fatal severity.
pub fn capture_fatal(msg: &str) -> (r: CapturedMessage)
    ensures
        r.level == CaptureLevel::Fatal,
        r.text@ == msg@,
{
    CapturedMessage { level: CaptureLevel::Fatal, text: msg.to_owned() }
}

} // verus!
