//! Log severity levels and their wire labels.

use vstd::prelude::*;

verus! {

/// Severity of a log event. `Debug` is a local-only level: it is echoed
/// to the console and never delivered over the network.
#[derive(Clone, Copy, PartialEq, Eq, Structural, Debug)]
pub enum LogLevel {
    Info,
    Warn,
    Error,
    Debug,
}

/// The capitalized variant name used on the wire.
pub open spec fn level_wire_label(level: LogLevel) -> Seq<char> {
    match level {
        LogLevel::Info => "Info"@,
        LogLevel::Warn => "Warn"@,
        LogLevel::Error => "Error"@,
        LogLevel::Debug => "Debug"@,
    }
}

/// The capitalized wire label of a level.
pub fn level_label(level: LogLevel) -> (r: &'static str)
    ensures
        r@ == level_wire_label(level),
{
    match level {
        LogLevel::Info => "Info",
        LogLevel::Warn => "Warn",
        LogLevel::Error => "Error",
        LogLevel::Debug => "Debug",
    }
}

} // verus!
