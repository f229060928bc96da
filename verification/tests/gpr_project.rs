use libadalang::exception::{ErrorChannel, ExceptionKind, RawException};
use libadalang::gpr_project::{
    GprProject, GprProjectBuilder, LoadCall, LoadReply, PreparedLoad,
};
use libadalang::Error;

fn custom_message<T>(res: Result<T, Error>) -> String {
    match res {
        Err(Error::Custom(m)) => m,
        Err(Error::Exception(_)) => panic!("expected a local error, got an exception"),
        Ok(_) => panic!("expected a local error, got success"),
    }
}

fn quiet() -> ErrorChannel {
    let mut channel = ErrorChannel::new();
    channel.record(None);
    channel
}

#[test]
fn implicit_project_rejects_a_scenario_variable() {
    let res = GprProjectBuilder::new_implicit().scenario_var("MODE", "debug");
    assert_eq!(custom_message(res), "cannot set scenario vars in an implicit project");
}

#[test]
fn implicit_project_rejects_a_scenario_variable_after_other_options() {
    let builder = GprProject::build_implicit().target("x86_64-linux").runtime("light");
    let res = builder.scenario_var("MODE", "debug");
    assert_eq!(custom_message(res), "cannot set scenario vars in an implicit project");
}

#[test]
fn implicit_project_rejects_scenario_variables_even_when_there_are_none() {
    let res = GprProjectBuilder::new_implicit().scenario_vars(&[]);
    assert_eq!(custom_message(res), "cannot set scenario vars in an implicit project");
    let res = GprProjectBuilder::new_implicit().scenario_vars(&[("A", "1"), ("B", "2")]);
    assert_eq!(custom_message(res), "cannot set scenario vars in an implicit project");
}

#[test]
fn implicit_project_rejects_ada_only() {
    let res = GprProjectBuilder::new_implicit().ada_only(true);
    assert_eq!(custom_message(res), "cannot set `ada_only` in an implicit project");
}

#[test]
fn implicit_project_prepares_the_implicit_call() {
    let builder = GprProjectBuilder::new_implicit().config_file("cfg.cgpr");
    let prepared = builder.prepare().ok().expect("sendable");
    match prepared.call() {
        LoadCall::Implicit { target, runtime, config_file } => {
            assert!(target.is_none());
            assert!(runtime.is_none());
            assert_eq!(config_file.as_ref().expect("set").as_bytes_with_nul(), b"cfg.cgpr\0");
        }
        _ => panic!("expected the implicit call"),
    }
}

#[test]
fn scenario_variables_end_in_the_closing_entry() {
    let builder = GprProjectBuilder::new("demo.gpr")
        .scenario_var("MODE", "debug")
        .ok()
        .expect("explicit project");
    let prepared = builder.prepare().ok().expect("sendable");
    match prepared.call() {
        LoadCall::Explicit { project_file, scenario_vars, target, runtime, config_file, ada_only } => {
            assert_eq!(project_file.as_bytes_with_nul(), b"demo.gpr\0");
            assert_eq!(scenario_vars.len(), 2);
            assert_eq!(scenario_vars[0].name.as_ref().expect("name").as_bytes_with_nul(), b"MODE\0");
            assert_eq!(scenario_vars[0].value.as_ref().expect("value").as_bytes_with_nul(), b"debug\0");
            assert!(scenario_vars[1].name.is_none());
            assert!(scenario_vars[1].value.is_none());
            assert!(target.is_none() && runtime.is_none() && config_file.is_none());
            assert_eq!(*ada_only, 0);
        }
        _ => panic!("expected the explicit call"),
    }
}

#[test]
fn no_scenario_variables_means_no_array() {
    let builder = GprProject::build("demo.gpr")
        .target("arm-elf")
        .runtime("embedded")
        .ada_only(true)
        .ok()
        .expect("explicit project");
    let prepared = builder.prepare().ok().expect("sendable");
    match prepared.call() {
        LoadCall::Explicit { scenario_vars, target, runtime, ada_only, .. } => {
            assert!(scenario_vars.is_empty());
            assert_eq!(target.as_ref().expect("set").as_bytes_with_nul(), b"arm-elf\0");
            assert_eq!(runtime.as_ref().expect("set").as_bytes_with_nul(), b"embedded\0");
            assert_eq!(*ada_only, 1);
        }
        _ => panic!("expected the explicit call"),
    }
}

#[test]
fn several_scenario_variables_keep_their_order() {
    let builder = GprProjectBuilder::new("demo.gpr")
        .scenario_var("FIRST", "1")
        .ok()
        .expect("explicit project")
        .scenario_vars(&[("SECOND", "2"), ("THIRD", "3")])
        .ok()
        .expect("explicit project");
    let prepared = builder.prepare().ok().expect("sendable");
    match prepared.call() {
        LoadCall::Explicit { scenario_vars, .. } => {
            assert_eq!(scenario_vars.len(), 4);
            let names: Vec<&[u8]> = scenario_vars[..3]
                .iter()
                .map(|v| v.name.as_ref().expect("name").as_bytes_with_nul())
                .collect();
            assert_eq!(names, vec![&b"FIRST\0"[..], &b"SECOND\0"[..], &b"THIRD\0"[..]]);
            let values: Vec<&[u8]> = scenario_vars[..3]
                .iter()
                .map(|v| v.value.as_ref().expect("value").as_bytes_with_nul())
                .collect();
            assert_eq!(values, vec![&b"1\0"[..], &b"2\0"[..], &b"3\0"[..]]);
            assert!(scenario_vars[3].name.is_none() && scenario_vars[3].value.is_none());
        }
        _ => panic!("expected the explicit call"),
    }
}

#[test]
fn a_zero_byte_in_an_option_fails_before_the_call() {
    let res = GprProjectBuilder::new("bad\0name.gpr").prepare();
    assert_eq!(custom_message(res), "configuration text holds a nul byte");
    let res = GprProjectBuilder::new("p.gpr").target("x\0").prepare();
    assert_eq!(custom_message(res), "configuration text holds a nul byte");
    let res = GprProjectBuilder::new("p.gpr")
        .scenario_var("MODE", "de\0bug")
        .ok()
        .expect("explicit project")
        .prepare();
    assert_eq!(custom_message(res), "configuration text holds a nul byte");
    let res = GprProjectBuilder::new_implicit().runtime("\0").prepare();
    assert_eq!(custom_message(res), "configuration text holds a nul byte");
}

fn mode_debug(path: &str) -> PreparedLoad {
    let builder =
        GprProjectBuilder::new(path).scenario_var("MODE", "debug").ok().expect("explicit project");
    builder.prepare().ok().expect("sendable")
}

#[test]
fn valid_project_yields_a_handle_and_no_errors() {
    let prepared = mode_debug("demo.gpr");
    let mut channel = quiet();
    let outcome = GprProjectBuilder::load(prepared, LoadReply { project: 0x1000, errors: None }, &mut channel);
    assert!(!outcome.free_errors);
    match outcome.result {
        Ok(project) => assert_eq!(project.as_raw(), 0x1000),
        Err(_) => panic!("expected a project"),
    }
}

#[test]
fn invalid_project_path_yields_the_joined_errors() {
    let prepared = mode_debug("missing.gpr");
    let mut channel = quiet();
    let reply = LoadReply {
        project: 0,
        errors: Some(vec![
            String::from("missing.gpr: file not found"),
            String::from("project not loaded"),
        ]),
    };
    let outcome = GprProjectBuilder::load(prepared, reply, &mut channel);
    assert!(outcome.free_errors);
    assert_eq!(
        custom_message(outcome.result),
        "missing.gpr: file not found\nproject not loaded"
    );
}

#[test]
fn a_single_error_is_not_followed_by_a_line_feed() {
    let prepared = mode_debug("missing.gpr");
    let mut channel = quiet();
    let reply = LoadReply { project: 0, errors: Some(vec![String::from("only one")]) };
    assert_eq!(custom_message(GprProjectBuilder::load(prepared, reply, &mut channel).result), "only one");
}

#[test]
fn errors_beside_a_handle_still_fail_the_load() {
    let prepared = mode_debug("demo.gpr");
    let mut channel = quiet();
    let reply = LoadReply { project: 0x1000, errors: Some(vec![String::from("warning as error")]) };
    let outcome = GprProjectBuilder::load(prepared, reply, &mut channel);
    assert!(outcome.free_errors);
    assert_eq!(custom_message(outcome.result), "warning as error");
}

#[test]
fn an_empty_error_array_beside_a_handle_is_a_success() {
    let prepared = mode_debug("demo.gpr");
    let mut channel = quiet();
    let reply = LoadReply { project: 0x2000, errors: Some(Vec::new()) };
    let outcome = GprProjectBuilder::load(prepared, reply, &mut channel);
    assert!(!outcome.free_errors);
    assert!(outcome.result.is_ok());
}

#[test]
fn no_handle_and_no_error_text_is_an_invalid_project() {
    let prepared = mode_debug("demo.gpr");
    let mut channel = quiet();
    let outcome = GprProjectBuilder::load(prepared, LoadReply { project: 0, errors: None }, &mut channel);
    assert!(!outcome.free_errors);
    assert_eq!(custom_message(outcome.result), "invalid project");

    let prepared = mode_debug("demo.gpr");
    let reply = LoadReply { project: 0, errors: Some(vec![String::new()]) };
    let outcome = GprProjectBuilder::load(prepared, reply, &mut channel);
    assert!(outcome.free_errors);
    assert_eq!(custom_message(outcome.result), "invalid project");
}

#[test]
fn a_pending_exception_wins_over_the_reply() {
    let prepared = mode_debug("demo.gpr");
    let mut channel = ErrorChannel::new();
    channel.record(Some(RawException {
        kind: ExceptionKind { code: 3 },
        information: b"engine failure".to_vec(),
    }));
    let reply = LoadReply { project: 0x1000, errors: Some(vec![String::from("ignored")]) };
    let outcome = GprProjectBuilder::load(prepared, reply, &mut channel);
    assert!(!outcome.free_errors);
    match outcome.result {
        Err(Error::Exception(e)) => {
            assert_eq!(e.kind().code, 3);
            assert_eq!(e.message(), "engine failure");
        }
        _ => panic!("expected the engine's exception"),
    }
    assert!(!channel.has_pending());
}
