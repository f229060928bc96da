//! Diagnostics and the source locations they point at.
use vstd::prelude::*;

use crate::text::{RawText, Text};

verus! {

/// A position in a source file.
#[derive(Clone, Copy, PartialEq, Eq, Structural, Debug)]
pub struct SourceLocation {
    pub line: u32,
    pub column: u16,
}

/// A range between two positions.
#[derive(Clone, Copy, PartialEq, Eq, Structural, Debug)]
pub struct SourceLocationRange {
    pub start: SourceLocation,
    pub end: SourceLocation,
}

/// The wire form of a diagnostic: a range and a message buffer.
pub struct RawDiagnostic {
    pub sloc_range: SourceLocationRange,
    pub message: RawText,
}

/// A diagnostic in host form.
pub struct Diagnostic {
    pub sloc_range: SourceLocationRange,
    pub message: String,
}

/// A diagnostic read from its wire form, and whether the message buffer it
/// was read from is the reader's to destroy.
pub struct DiagnosticRead {
    pub diagnostic: Diagnostic,
    pub destroy_message: bool,
}

/// The range that starts at `start` and ends at `end`, each a line and a
/// column.
pub open spec fn range_of(start: (u32, u16), end: (u32, u16)) -> SourceLocationRange {
    SourceLocationRange {
        start: SourceLocation { line: start.0, column: start.1 },
        end: SourceLocation { line: end.0, column: end.1 },
    }
}

impl Diagnostic {
    /// Whether `raw` carries the same range and the same message text as
    /// this diagnostic.
    pub open spec fn encoded_by(&self, raw: RawDiagnostic) -> bool {
        &&& raw.sloc_range == self.sloc_range
        &&& raw.message.content() == self.message@
    }

    /// Copies a wire diagnostic into host form. The message is copied
    /// whether or not the wire value owns its buffer; where it does, the
    /// buffer was handed over with the value and is now to be destroyed,
    /// once.
    pub fn from_raw(raw: RawDiagnostic) -> (read: DiagnosticRead)
        ensures
            read.diagnostic.encoded_by(raw),
            read.destroy_message == raw.message.owned(),
    {
        let message = Text::from_raw_borrow(&raw.message).to_string();
        DiagnosticRead {
            diagnostic: Diagnostic { sloc_range: raw.sloc_range, message },
            destroy_message: raw.message.is_allocated != 0,
        }
    }

    /// Builds the wire form, with a freshly allocated message buffer that
    /// the receiver owns.
    pub fn to_raw(&self) -> (raw: RawDiagnostic)
        ensures
            self.encoded_by(raw),
            raw.message.owned(),
            raw.message.buffer is Some,
    {
        make_diag(
            [
                (self.sloc_range.start.line, self.sloc_range.start.column),
                (self.sloc_range.end.line, self.sloc_range.end.column),
            ],
            self.message.as_str(),
        )
    }
}

/// Builds a wire diagnostic from a pair of (line, column) positions and a
/// message, allocating an owned buffer for the message.
pub fn make_diag(sloc_range: [(u32, u16); 2], msg: &str) -> (raw: RawDiagnostic)
    ensures
        raw.sloc_range == range_of(sloc_range[0], sloc_range[1]),
        raw.message.content() == msg@,
        raw.message.owned(),
        raw.message.buffer is Some,
{
    RawDiagnostic {
        sloc_range: SourceLocationRange {
            start: SourceLocation { line: sloc_range[0].0, column: sloc_range[0].1 },
            end: SourceLocation { line: sloc_range[1].0, column: sloc_range[1].1 },
        },
        message: Text::new(msg).into_raw(),
    }
}

/// A diagnostic survives the trip through its wire form: what is read back
/// from the wire value that encodes it has the same range and the same
/// message.
pub proof fn lemma_diagnostic_round_trip(diag: Diagnostic, raw: RawDiagnostic, back: Diagnostic)
    requires
        diag.encoded_by(raw),
        back.encoded_by(raw),
    ensures
        back.sloc_range == diag.sloc_range,
        back.message@ == diag.message@,
{
}

} // verus!
