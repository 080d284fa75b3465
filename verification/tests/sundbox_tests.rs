use sundbox::attempts::{
    check_result, decode_errno_message, encode_errno_message, reported_errno, CLOEXEC_MSG_FOOTER,
};
use sundbox::invocation::{
    decode_module_json, fork_request, mode_for, parse_limits, InvocationError, Limits, Mode,
    Verifier,
};
use sundbox::sandbox::{
    child_exit_code, contains_marker, judge_completion, plan_fork, Completion, ForkPlan,
    DEFAULT_MEMORY_LIMIT, DEFAULT_TIME_LIMIT_MS, EXIT_FAILURE, EXIT_SUCCESS, MAX_MARKER_BYTES,
    SUNDBOX, SUNDBOX_LENGTH,
};
use sundbox::text::{present_stream, remove_quotes};

fn args(list: &[&str]) -> Vec<String> {
    list.iter().map(|s| s.to_string()).collect()
}

#[test]
fn footer_is_noex() {
    assert_eq!(&CLOEXEC_MSG_FOOTER, b"NOEX");
}

#[test]
fn errno_message_layout() {
    assert_eq!(encode_errno_message(2), [0, 0, 0, 2, b'N', b'O', b'E', b'X']);
    assert_eq!(
        encode_errno_message(0x01020304),
        [1, 2, 3, 4, b'N', b'O', b'E', b'X']
    );
    assert_eq!(encode_errno_message(-1), [255, 255, 255, 255, b'N', b'O', b'E', b'X']);
}

#[test]
fn errno_message_round_trip() {
    for e in [0, 1, 22, 255, 256, 65536, i32::MAX, i32::MIN, -1, -22] {
        assert_eq!(decode_errno_message(encode_errno_message(e)), Some(e));
    }
}

#[test]
fn errno_message_with_bad_footer_is_refused() {
    assert_eq!(decode_errno_message([0, 0, 0, 2, b'N', b'O', b'E', b'Y']), None);
    assert_eq!(decode_errno_message([0; 8]), None);
    assert_eq!(decode_errno_message([0, 0, 1, 0, b'N', b'O', b'E', b'X']), Some(256));
}

#[test]
fn check_result_passes_values_and_fails_on_minus_one() {
    assert_eq!(check_result(0).unwrap(), 0);
    assert_eq!(check_result(1234).unwrap(), 1234);
    assert_eq!(check_result(-2).unwrap(), -2);
    assert!(check_result(-1).is_err());
}

#[test]
fn reported_errno_prefers_os_code() {
    assert_eq!(reported_errno(Some(13)), 13);
    assert_eq!(reported_errno(None), libc::EINVAL);
}

#[test]
fn constants() {
    assert_eq!(SUNDBOX, "SUNDBOX");
    assert_eq!(SUNDBOX_LENGTH, 19);
    assert_eq!(MAX_MARKER_BYTES, 304);
    assert_eq!(DEFAULT_TIME_LIMIT_MS, 1000);
    assert_eq!(DEFAULT_MEMORY_LIMIT, 1048576);
}

#[test]
fn marker_search_is_substring_search() {
    assert!(contains_marker("sandboxed", "sandboxed"));
    assert!(contains_marker("xxsandboxedyy", "sandboxed"));
    assert!(contains_marker("", ""));
    assert!(contains_marker("abc", ""));
    assert!(!contains_marker("", "sandboxed"));
    assert!(!contains_marker("sandboxe", "sandboxed"));
    assert!(!contains_marker("sandBoxed", "sandboxed"));
    assert!(contains_marker("héllo wörld", "ö"));
    assert!(!contains_marker("héllo", "e"));
}

#[test]
fn plan_runs_in_child_when_marked() {
    let plan = plan_fork("..sandboxed", "sandboxed", "m".to_string(), "f".to_string(), None, None);
    assert!(matches!(plan, ForkPlan::RunInChild));
}

#[test]
fn plan_with_empty_marker_runs_in_place() {
    let plan = plan_fork("", "", String::new(), String::new(), None, None);
    assert!(matches!(plan, ForkPlan::RunInChild));
    let long = "x".repeat(1000);
    let plan = plan_fork(&long, "", String::new(), String::new(), None, None);
    assert!(matches!(plan, ForkPlan::RunInChild));
}

#[test]
fn plan_spawns_with_defaults() {
    let plan = plan_fork("", "sandboxed", "[1,2]".to_string(), "map".to_string(), None, None);
    match plan {
        ForkPlan::Spawn(req) => {
            assert_eq!(req.module_arg, "[1,2]");
            assert_eq!(req.marker_env, "sandboxed");
            assert_eq!(req.stdin_payload, "map");
            assert_eq!(req.time_limit_ms, 1000);
            assert_eq!(req.memory_limit, 1048576);
        }
        _ => panic!("expected a spawn"),
    }
}

#[test]
fn plan_spawns_with_given_limits_and_extends_markers() {
    let plan = plan_fork(":a", ":b", String::new(), String::new(), Some(7), Some(4096));
    match plan {
        ForkPlan::Spawn(req) => {
            assert_eq!(req.marker_env, ":a:b");
            assert_eq!(req.time_limit_ms, 7);
            assert_eq!(req.memory_limit, 4096);
        }
        _ => panic!("expected a spawn"),
    }
}

#[test]
fn plan_refuses_deep_nesting() {
    let at_limit = "y".repeat(304);
    assert!(matches!(
        plan_fork(&at_limit, ":z", String::new(), String::new(), None, None),
        ForkPlan::Spawn(_)
    ));
    let over = "y".repeat(305);
    assert!(matches!(
        plan_fork(&over, ":z", String::new(), String::new(), None, None),
        ForkPlan::RefuseNesting
    ));
    // a marked process still runs in place however long its marker list is
    let marked = format!("{}:z", over);
    assert!(matches!(
        plan_fork(&marked, ":z", String::new(), String::new(), None, None),
        ForkPlan::RunInChild
    ));
    // byte length, not character count, is compared
    let wide = "é".repeat(153);
    assert!(matches!(
        plan_fork(&wide, ":z", String::new(), String::new(), None, None),
        ForkPlan::RefuseNesting
    ));
}

#[test]
fn spawned_child_recognises_itself() {
    for (occurs, marker) in [("", "sandboxed"), (":a:b", ":c"), ("ü", "ö"), ("abc", "")] {
        match plan_fork(occurs, marker, String::new(), String::new(), None, None) {
            ForkPlan::Spawn(req) => {
                let again =
                    plan_fork(&req.marker_env, marker, String::new(), String::new(), None, None);
                assert!(matches!(again, ForkPlan::RunInChild));
            }
            ForkPlan::RunInChild => assert!(marker.is_empty()),
            ForkPlan::RefuseNesting => panic!("unexpected refusal"),
        }
    }
}

#[test]
fn child_exit_codes() {
    assert_eq!(child_exit_code(false), 0);
    assert_eq!(child_exit_code(true), 70);
    assert_eq!(EXIT_SUCCESS, 0);
    assert_eq!(EXIT_FAILURE, 70);
}

#[test]
fn completion_reports() {
    assert_eq!(judge_completion(None), Completion::TimedOut);
    assert_eq!(judge_completion(Some(true)), Completion::Succeeded);
    assert_eq!(judge_completion(Some(false)), Completion::ThrewError);
    assert_eq!(Completion::Succeeded.message(), "Verifier succeeded!");
    assert_eq!(Completion::ThrewError.message(), "Verifier threw Error");
    assert_eq!(Completion::TimedOut.message(), "Process timed out");
    assert!(Completion::Succeeded.reports_on_stdout());
    assert!(!Completion::ThrewError.reports_on_stdout());
    assert!(!Completion::TimedOut.reports_on_stdout());
}

#[test]
fn modes_by_argument_count() {
    assert_eq!(mode_for(4), Mode::MoveVerifier);
    assert_eq!(mode_for(5), Mode::SuiVerifier);
    assert_eq!(mode_for(2), Mode::Child);
    assert_eq!(mode_for(0), Mode::Invalid);
    assert_eq!(mode_for(1), Mode::Invalid);
    assert_eq!(mode_for(3), Mode::Invalid);
    assert_eq!(mode_for(6), Mode::Invalid);
}

#[test]
fn limits_of_move_parent() {
    let a = args(&["prog", "[1]", "2500", "4096"]);
    assert_eq!(
        parse_limits(&a, Mode::MoveVerifier),
        Ok(Limits { time_limit_ms: 2500, memory_limit: 4096 })
    );
}

#[test]
fn limits_of_sui_parent_skip_second_argument() {
    let a = args(&["prog", "[1]", "junk", "+30", "0"]);
    assert_eq!(
        parse_limits(&a, Mode::SuiVerifier),
        Ok(Limits { time_limit_ms: 30, memory_limit: 0 })
    );
}

#[test]
fn limits_errors() {
    let a = args(&["prog", "[1]", "ten", "x"]);
    assert_eq!(parse_limits(&a, Mode::MoveVerifier), Err(InvocationError::TimeLimit));
    let a = args(&["prog", "[1]", "10", "-5"]);
    assert_eq!(parse_limits(&a, Mode::MoveVerifier), Err(InvocationError::MemoryLimit));
    let a = args(&["prog", "[1]", "18446744073709551616", "1"]);
    assert_eq!(parse_limits(&a, Mode::MoveVerifier), Err(InvocationError::TimeLimit));
    let a = args(&["prog", "[1]", "18446744073709551615", "1"]);
    assert_eq!(
        parse_limits(&a, Mode::MoveVerifier),
        Ok(Limits { time_limit_ms: u64::MAX, memory_limit: 1 })
    );
    let a = args(&["prog", "[1]", " 1", "1"]);
    assert_eq!(parse_limits(&a, Mode::MoveVerifier), Err(InvocationError::TimeLimit));
    let a = args(&["prog", "[1]", "+", "1"]);
    assert_eq!(parse_limits(&a, Mode::MoveVerifier), Err(InvocationError::TimeLimit));
    let a = args(&["prog", "[1]", "", "1"]);
    assert_eq!(parse_limits(&a, Mode::MoveVerifier), Err(InvocationError::TimeLimit));
}

#[test]
fn module_json_is_a_byte_array() {
    assert_eq!(decode_module_json("[1, 2, 255]"), Ok(vec![1u8, 2, 255]));
    assert_eq!(decode_module_json("[]"), Ok(vec![]));
    assert_eq!(decode_module_json("[256]"), Err(InvocationError::ModuleJson));
    assert_eq!(decode_module_json("\"abc\""), Err(InvocationError::ModuleJson));
    assert_eq!(decode_module_json(""), Err(InvocationError::ModuleJson));
}

#[test]
fn requests_of_parents() {
    let module = "[1,2]".to_string();
    let limits = Some(Limits { time_limit_ms: 9, memory_limit: 99 });
    let r = fork_request(Mode::MoveVerifier, &module, "ignored".to_string(), limits);
    assert_eq!(r.verifier, Verifier::Move);
    assert_eq!(r.sandboxed, "sandboxed");
    assert_eq!(r.ser_module, "[1,2]");
    assert_eq!(r.ser_fn_map, "");
    assert_eq!(r.timeout, Some(9));
    assert_eq!(r.mem_limit, Some(99));
    let r = fork_request(Mode::SuiVerifier, &module, "{\"k\":1}\n".to_string(), limits);
    assert_eq!(r.verifier, Verifier::Sui);
    assert_eq!(r.sandboxed, "sandboxed");
    assert_eq!(r.ser_fn_map, "{\"k\":1}\n");
    assert_eq!(r.timeout, Some(9));
    assert_eq!(r.mem_limit, Some(99));
}

#[test]
fn requests_of_child() {
    let module = "[1,2]".to_string();
    let r = fork_request(Mode::Child, &module, "{}".to_string(), None);
    assert_eq!(r.verifier, Verifier::Sui);
    assert_eq!(r.sandboxed, "sandboxed");
    assert_eq!(r.ser_module, "[1,2]");
    assert_eq!(r.ser_fn_map, "{}");
    assert_eq!(r.timeout, None);
    assert_eq!(r.mem_limit, None);
    let r = fork_request(Mode::Child, &module, String::new(), None);
    assert_eq!(r.verifier, Verifier::Move);
    assert_eq!(r.sandboxed, "");
    assert_eq!(r.ser_module, "");
    assert_eq!(r.ser_fn_map, "");
    assert_eq!(r.timeout, None);
    assert_eq!(r.mem_limit, None);
}

#[test]
fn child_of_parent_runs_in_place() {
    let module = "[1]".to_string();
    let limits = Some(Limits { time_limit_ms: 1, memory_limit: 1 });
    for line in ["", "{}"] {
        let parent = fork_request(Mode::SuiVerifier, &module, line.to_string(), limits);
        let spawn = match plan_fork("", &parent.sandboxed, parent.ser_module, parent.ser_fn_map, parent.timeout, parent.mem_limit) {
            ForkPlan::Spawn(s) => s,
            _ => panic!("parent must spawn"),
        };
        let child_args = args(&["prog", &spawn.module_arg]);
        assert_eq!(mode_for(child_args.len()), Mode::Child);
        let child = fork_request(Mode::Child, &spawn.module_arg, spawn.stdin_payload.clone(), None);
        let again = plan_fork(&spawn.marker_env, &child.sandboxed, child.ser_module, child.ser_fn_map, None, None);
        assert!(matches!(again, ForkPlan::RunInChild));
    }
}

#[test]
fn quotes_are_removed() {
    assert_eq!(remove_quotes("\"a\"b\"\""), "ab");
    assert_eq!(remove_quotes("none"), "none");
    assert_eq!(remove_quotes(""), "");
}

#[test]
fn streams_are_presented() {
    assert_eq!(present_stream(b"  \"hello\"\n"), "hello");
    assert_eq!(present_stream(b"\t a \"b\" c \r\n"), "a b c");
    assert_eq!(present_stream(b""), "");
    assert_eq!(present_stream(b"ok"), "ok");
    assert_eq!(present_stream(&[0x66, 0xff, 0x6f]), "f\u{fffd}o");
    assert_eq!(present_stream("\u{3000}x\u{a0}".as_bytes()), "x");
    assert!(!present_stream(b"\"\"\"").contains('"'));
}
