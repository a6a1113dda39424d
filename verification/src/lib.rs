//! Supervision of short-lived worker subprocesses: a verified line
//! classifier that turns captured output into typed telemetry records,
//! per-session telemetry state, and a registry of sessions.

use vstd::prelude::*;

pub mod classify;
pub mod laws;
pub mod records;
pub mod state;

verus! {

/// Whitespace, as the classifier and the trimming rules understand it:
/// the Unicode white-space characters, the set that `str::trim` removes.
pub open spec fn is_ws_char(c: char) -> bool {
    c == ' ' || c == '\t' || c == '\n' || c == '\r' || c == '\x0b' || c == '\x0c'
        || c == '\u{0085}' || c == '\u{00a0}' || c == '\u{1680}' || ('\u{2000}' <= c && c
        <= '\u{200a}') || c == '\u{2028}' || c == '\u{2029}' || c == '\u{202f}' || c
        == '\u{205f}' || c == '\u{3000}'
}

/// A decimal digit.
pub open spec fn is_digit_char(c: char) -> bool {
    '0' <= c && c <= '9'
}

} // verus!
