use libadalang::diagnostic::{
    make_diag, Diagnostic, RawDiagnostic, SourceLocation, SourceLocationRange,
};
use libadalang::text::RawText;

#[test]
fn make_diag_places_lines_and_columns() {
    let raw = make_diag([(3, 7), (4, 1)], "missing ';'");
    assert_eq!(raw.sloc_range.start, SourceLocation { line: 3, column: 7 });
    assert_eq!(raw.sloc_range.end, SourceLocation { line: 4, column: 1 });
    assert_ne!(raw.message.is_allocated, 0);
    assert_eq!(raw.message.buffer, Some("missing ';'".chars().collect::<Vec<char>>()));
}

#[test]
fn diagnostic_round_trips_through_its_wire_form() {
    let diag = Diagnostic {
        sloc_range: SourceLocationRange {
            start: SourceLocation { line: u32::MAX, column: u16::MAX },
            end: SourceLocation { line: 0, column: 1 },
        },
        message: String::from("unexpected tôken"),
    };
    let read = Diagnostic::from_raw(diag.to_raw());
    assert_eq!(read.diagnostic.sloc_range, diag.sloc_range);
    assert_eq!(read.diagnostic.message, diag.message);
    assert!(read.destroy_message);
}

#[test]
fn from_raw_copies_a_borrowed_message() {
    let raw = RawDiagnostic {
        sloc_range: SourceLocationRange {
            start: SourceLocation { line: 1, column: 2 },
            end: SourceLocation { line: 1, column: 9 },
        },
        message: RawText { buffer: Some(vec!['o', 'o', 'p', 's']), is_allocated: 0 },
    };
    let read = Diagnostic::from_raw(raw);
    assert!(!read.destroy_message);
    let diag = read.diagnostic;
    assert_eq!(diag.message, "oops");
    assert_eq!(diag.sloc_range.start.column, 2);
    assert_eq!(diag.sloc_range.end.column, 9);
}

#[test]
fn from_raw_reads_a_null_message_as_empty() {
    let raw = RawDiagnostic {
        sloc_range: SourceLocationRange {
            start: SourceLocation { line: 0, column: 0 },
            end: SourceLocation { line: 0, column: 0 },
        },
        message: RawText { buffer: None, is_allocated: 0 },
    };
    let read = Diagnostic::from_raw(raw);
    assert_eq!(read.diagnostic.message, "");
    assert!(!read.destroy_message);
}

#[test]
fn from_raw_says_when_the_message_buffer_is_to_be_destroyed() {
    let range = SourceLocationRange {
        start: SourceLocation { line: 1, column: 1 },
        end: SourceLocation { line: 1, column: 2 },
    };
    let owned = RawDiagnostic {
        sloc_range: range,
        message: RawText { buffer: Some(vec!['x']), is_allocated: 1 },
    };
    assert!(Diagnostic::from_raw(owned).destroy_message);
    let lent = RawDiagnostic {
        sloc_range: range,
        message: RawText { buffer: Some(vec!['x']), is_allocated: 0 },
    };
    assert!(!Diagnostic::from_raw(lent).destroy_message);
}
