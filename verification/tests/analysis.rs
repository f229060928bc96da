use libadalang::analysis::context::{ContextBuilder, ContextRef, FinishError, InitOutcome};
use libadalang::analysis::{Context, Unit};
use libadalang::diagnostic::{RawDiagnostic, SourceLocation, SourceLocationRange};
use libadalang::event_handler::EventHandler;
use libadalang::exception::{ErrorChannel, ExceptionKind, LogAction, RawException};
use libadalang::gpr_project::{GprProject, GprProjectBuilder, LoadReply};
use libadalang::lifecycle::{HandleEvent, Ledger, Phase};
use libadalang::text::Text;
use libadalang::Error;

fn quiet() -> ErrorChannel {
    let mut channel = ErrorChannel::new();
    channel.record(None);
    channel
}

fn failing(msg: &str) -> ErrorChannel {
    let mut channel = ErrorChannel::new();
    channel.record(Some(RawException {
        kind: ExceptionKind { code: 1 },
        information: msg.as_bytes().to_vec(),
    }));
    channel
}

fn project(handle: usize) -> GprProject {
    let prepared = GprProjectBuilder::new("demo.gpr").prepare().ok().expect("sendable");
    let reply = LoadReply { project: handle, errors: None };
    GprProjectBuilder::load(prepared, reply, &mut quiet()).result.ok().expect("loaded")
}

fn allocated() -> Ledger {
    let mut ledger = Ledger::new();
    assert!(ledger.record(HandleEvent::Allocate));
    ledger
}

fn unit(handle: usize) -> Unit {
    Unit::from_raw(handle).expect("non-null")
}

#[test]
fn null_context_handle_is_not_wrapped() {
    assert!(Context::from_raw(0).is_none());
    assert_eq!(Context::from_raw(0x40).expect("non-null").as_raw(), 0x40);
    assert!(ContextRef::from_raw(0).is_none());
    assert_eq!(ContextRef::from_raw(0x40).expect("non-null").as_raw(), 0x40);
}

#[test]
fn null_unit_handle_is_not_wrapped() {
    assert!(Unit::from_raw(0).is_none());
    assert_eq!(unit(0x77).as_raw(), 0x77);
}

#[test]
fn unit_names_its_context_without_a_reference() {
    let unit = unit(0x77);
    assert!(unit.context(0).is_none());
    let owner = unit.context(0x40).expect("owner");
    assert_eq!(owner.as_raw(), 0x40);
    let mut ledger = allocated();
    let kept = owner.retain(0x40, &mut ledger).expect("non-null");
    assert_eq!(kept.as_raw(), 0x40);
    assert_eq!(ledger.increments(), 2);
    assert_eq!(ledger.decrements(), 0);
}

#[test]
fn clone_takes_one_reference_and_release_gives_one_back() {
    let mut ledger = allocated();
    let first = Context::from_raw(0x40).expect("non-null");
    let second = first.retain(0x40, &mut ledger).expect("non-null");
    assert_eq!(second.as_raw(), first.as_raw());
    assert_eq!(first.as_ref().as_raw(), 0x40);
    assert_eq!((ledger.increments(), ledger.decrements()), (2, 0));
    assert!(matches!(first.release(&mut quiet(), &mut ledger), LogAction::Nothing));
    assert_eq!((ledger.increments(), ledger.decrements()), (2, 1));
    assert_eq!(ledger.phase(), Phase::Allocated);
    assert!(!ledger.destroyed());
    assert!(matches!(second.release(&mut quiet(), &mut ledger), LogAction::Nothing));
    assert_eq!((ledger.increments(), ledger.decrements()), (2, 2));
    assert_eq!(ledger.phase(), Phase::Released);
    assert!(ledger.destroyed());
}

#[test]
fn unit_counts_and_filename() {
    let unit = unit(0x77);
    assert_eq!(unit.token_count(12), 12usize);
    assert_eq!(unit.trivia_count(0), 0usize);
    assert_eq!(unit.diagnostic_count(4294967295), u32::MAX);
    assert_eq!(unit.diagnostic_count(0), 0u32);
    assert_eq!(unit.filename("src/máin.adb".as_bytes()), "src/máin.adb");
}

#[test]
fn unit_request_carries_the_arguments() {
    let ctx = Context::from_raw(0x40).expect("non-null");
    let req = ctx.unit_request("main.adb", "utf-8", true, 5).ok().expect("sendable");
    assert_eq!(req.context, 0x40);
    assert_eq!(req.filename.as_bytes_with_nul(), b"main.adb\0");
    assert_eq!(req.charset.as_bytes_with_nul(), b"utf-8\0");
    assert_eq!(req.reparse, 1);
    assert_eq!(req.rule, 5);
    let req = ctx.unit_request("", "", false, 0).ok().expect("sendable");
    assert_eq!(req.filename.as_bytes_with_nul(), b"\0");
    assert_eq!(req.reparse, 0);
}

#[test]
fn unit_request_refuses_a_zero_byte() {
    let ctx = Context::from_raw(0x40).expect("non-null");
    match ctx.unit_request("ma\0in.adb", "utf-8", false, 0) {
        Err(Error::Custom(m)) => assert_eq!(m, "configuration text holds a nul byte"),
        _ => panic!("expected a local error"),
    }
    assert!(ctx.unit_request("main.adb", "\0", false, 0).is_err());
}

#[test]
fn unit_for_a_missing_file_has_a_diagnostic_with_a_message() {
    let ctx = Context::from_raw(0x40).expect("non-null");
    let mut channel = quiet();
    let (unit, action) = ctx.get_unit_from_file(0x77, &mut channel);
    assert!(matches!(action, LogAction::Nothing));
    let unit = unit.expect("non-null");
    assert_eq!(unit.as_raw(), 0x77);
    assert!(unit.diagnostic_count(1) >= 1);
    let raw = RawDiagnostic {
        sloc_range: SourceLocationRange {
            start: SourceLocation { line: 1, column: 1 },
            end: SourceLocation { line: 1, column: 1 },
        },
        message: Text::new("Cannot open nonexistent.adb").into_raw(),
    };
    let read = unit.get_diagnostic(1, raw).expect("found");
    assert!(read.destroy_message);
    assert!(!read.diagnostic.message.is_empty());
    assert_eq!(read.diagnostic.message, "Cannot open nonexistent.adb");
}

#[test]
fn no_diagnostic_when_the_engine_found_none() {
    let raw = RawDiagnostic {
        sloc_range: SourceLocationRange {
            start: SourceLocation { line: 0, column: 0 },
            end: SourceLocation { line: 0, column: 0 },
        },
        message: Text::new("stale").as_raw_borrow(),
    };
    assert!(unit(0x77).get_diagnostic(0, raw).is_none());
}

#[test]
fn get_unit_prints_a_pending_exception_and_wraps_no_null_unit() {
    let ctx = Context::from_raw(0x40).expect("non-null");
    let mut channel = failing("bad charset");
    let (unit, action) = ctx.get_unit_from_file(0, &mut channel);
    assert!(unit.is_none());
    match action {
        LogAction::Print(e) => assert_eq!(e.message(), "bad charset"),
        _ => panic!("expected a print"),
    }
    let (unit, _) = ctx.get_unit_from_file(0x77, &mut failing("warning"));
    assert_eq!(unit.expect("non-null").as_raw(), 0x77);
}

#[test]
fn finish_hands_out_the_initialization_call() {
    let builder = Context::build(project(0x1000))
        .subproject("core")
        .ok()
        .expect("sendable")
        .with_trivia(true)
        .tab_stop(8);
    let mut ledger = Ledger::new();
    let init = builder.finish(0x40, &mut quiet(), &mut ledger).ok().expect("allocated");
    assert_eq!((ledger.increments(), ledger.decrements()), (1, 0));
    assert_eq!(init.project(), 0x1000);
    assert_eq!(init.context(), 0x40);
    assert_eq!(init.subproject().expect("set").as_bytes_with_nul(), b"core\0");
    assert_eq!(init.event_handler(), 0);
    assert_eq!(init.with_trivia(), 1);
    assert_eq!(init.tab_stop(), 8);
    match init.complete(&mut quiet()) {
        InitOutcome::Ready { context, project, event_handler } => {
            assert_eq!(context.as_raw(), 0x40);
            assert_eq!(project.into_raw(), 0x1000);
            assert!(event_handler.is_none());
        }
        InitOutcome::Rejected { .. } => panic!("expected a context"),
    }
}

#[test]
fn finish_defaults() {
    let init = ContextBuilder::new(project(0x1000))
        .finish(0x40, &mut quiet(), &mut Ledger::new())
        .ok()
        .expect("allocated");
    assert!(init.subproject().is_none());
    assert_eq!(init.event_handler(), 0);
    assert_eq!(init.with_trivia(), 0);
    assert_eq!(init.tab_stop(), 3);
}

#[test]
fn finish_passes_the_event_handler_and_hands_it_back() {
    let handler = EventHandler::new(0x99, &mut quiet()).ok().expect("registered");
    let init = ContextBuilder::new(project(0x1000))
        .event_handler(handler)
        .finish(0x40, &mut quiet(), &mut Ledger::new())
        .ok()
        .expect("allocated");
    assert_eq!(init.event_handler(), 0x99);
    match init.complete(&mut quiet()) {
        InitOutcome::Ready { event_handler, .. } => {
            assert_eq!(event_handler.expect("handed back").as_raw(), 0x99)
        }
        InitOutcome::Rejected { .. } => panic!("expected a context"),
    }
}

#[test]
fn finish_fails_on_a_failed_allocation() {
    let mut ledger = Ledger::new();
    let handler = EventHandler::new(0x99, &mut quiet()).ok().expect("registered");
    let builder = ContextBuilder::new(project(0x1000)).event_handler(handler);
    match builder.finish(0x40, &mut failing("out of memory"), &mut ledger) {
        Err(FinishError { error: Error::Exception(e), project, event_handler }) => {
            assert_eq!(e.message(), "out of memory");
            assert_eq!(project.into_raw(), 0x1000);
            assert_eq!(event_handler.expect("handed back").as_raw(), 0x99);
        }
        _ => panic!("expected the engine's exception"),
    }
    assert_eq!(ledger.phase(), Phase::Uninitialized);
    match ContextBuilder::new(project(0x2000)).finish(0, &mut quiet(), &mut ledger) {
        Err(FinishError { error: Error::Custom(m), project, event_handler }) => {
            assert_eq!(m, "context allocation failed");
            assert_eq!(project.into_raw(), 0x2000);
            assert!(event_handler.is_none());
        }
        _ => panic!("expected a local error"),
    }
    assert_eq!(ledger.phase(), Phase::Uninitialized);
    assert_eq!(ledger.increments(), 0);
}

#[test]
fn failed_initialization_hands_the_context_back_for_release() {
    let mut ledger = Ledger::new();
    let handler = EventHandler::new(0x99, &mut quiet()).ok().expect("registered");
    let init = ContextBuilder::new(project(0x1000))
        .event_handler(handler)
        .finish(0x40, &mut quiet(), &mut ledger)
        .ok()
        .expect("allocated");
    match init.complete(&mut failing("no such subproject")) {
        InitOutcome::Rejected { error, release, project, event_handler } => {
            assert_eq!(error.message(), "no such subproject");
            assert_eq!(release.as_raw(), 0x40);
            assert!(matches!(release.release(&mut quiet(), &mut ledger), LogAction::Nothing));
            assert_eq!(ledger.phase(), Phase::Released);
            assert_eq!(ledger.increments(), ledger.decrements());
            assert_eq!(project.into_raw(), 0x1000);
            assert_eq!(event_handler.expect("handed back").as_raw(), 0x99);
        }
        InitOutcome::Ready { .. } => panic!("expected a rejection"),
    }
}

#[test]
fn subproject_refuses_a_zero_byte() {
    match ContextBuilder::new(project(0x1000)).subproject("co\0re") {
        Err(Error::Custom(m)) => assert_eq!(m, "configuration text holds a nul byte"),
        _ => panic!("expected a local error"),
    }
}

#[test]
fn release_prints_what_the_decrement_left() {
    let mut ledger = allocated();
    let ctx = Context::from_raw(0x40).expect("non-null");
    match ctx.release(&mut failing("decref failed"), &mut ledger) {
        LogAction::Print(e) => assert_eq!(e.message(), "decref failed"),
        _ => panic!("expected a print"),
    }
    assert_eq!(ledger.decrements(), 1);
}
