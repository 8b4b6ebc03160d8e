use command_proxy::auth::validator;
use command_proxy::command::{
    complete, exec, resolve, CommandOutput, CommandRequest, ProcessOutput, Step,
};
use command_proxy::config::Config;
use command_proxy::error::{AuthError, DecodeError, LookupError, SpawnError};
use command_proxy::gateway::receive;
use command_proxy::invocation::Invocation;
use command_proxy::response::{
    Body, Response, STATUS_BAD_REQUEST, STATUS_FORBIDDEN, STATUS_INTERNAL_SERVER_ERROR, STATUS_OK,
    STATUS_UNAUTHORIZED,
};
use toml::{Table, Value};

const TOKEN: &str = "correct-horse";

fn config(entries: &[(&str, &str)]) -> Config {
    let mut table = Table::new();
    for (name, line) in entries {
        table.insert(name.to_string(), Value::String(line.to_string()));
    }
    Config::new(TOKEN.to_string(), "gateway.log".to_string(), table)
}

fn request(name: &str) -> CommandRequest {
    CommandRequest { command: Some(name.to_string()) }
}

fn no_command() -> CommandRequest {
    CommandRequest { command: None }
}

fn ran(stdout: &[u8], stderr: &[u8], exitcode: Option<i32>) -> ProcessOutput {
    ProcessOutput { stdout: stdout.to_vec(), stderr: stderr.to_vec(), exitcode }
}

fn header(name: &str, value: &str) -> (String, String) {
    (name.to_string(), value.to_string())
}

fn invocation(program: &str, args: &[&str]) -> Invocation {
    Invocation { program: program.to_string(), args: args.iter().map(|a| a.to_string()).collect() }
}

#[test]
fn status_codes() {
    assert_eq!(STATUS_OK, 200);
    assert_eq!(STATUS_BAD_REQUEST, 400);
    assert_eq!(STATUS_UNAUTHORIZED, 401);
    assert_eq!(STATUS_FORBIDDEN, 403);
    assert_eq!(STATUS_INTERNAL_SERVER_ERROR, 500);
}

#[test]
fn validator_passes_the_secret() {
    assert_eq!(validator(Some(TOKEN), &config(&[])), Ok(()));
}

#[test]
fn validator_rejects_another_token() {
    let config = config(&[]);
    assert_eq!(validator(Some("correct-hors"), &config), Err(AuthError::WrongToken));
    assert_eq!(validator(Some("correct-horse "), &config), Err(AuthError::WrongToken));
    assert_eq!(validator(Some("CORRECT-HORSE"), &config), Err(AuthError::WrongToken));
    assert_eq!(validator(Some(""), &config), Err(AuthError::WrongToken));
}

#[test]
fn validator_rejects_a_missing_token() {
    assert_eq!(validator(None, &config(&[])), Err(AuthError::MissingToken));
}

#[test]
fn empty_secret_is_matched_by_the_empty_token_only() {
    let config = Config::new(String::new(), "log".to_string(), Table::new());
    assert_eq!(validator(Some(""), &config), Ok(()));
    assert_eq!(validator(Some("x"), &config), Err(AuthError::WrongToken));
    assert_eq!(validator(None, &config), Err(AuthError::MissingToken));
}

#[test]
fn resolve_reads_the_registered_invocation() {
    let config = config(&[("echo", "echo hello world")]);
    assert_eq!(resolve(&request("echo"), &config), Ok(invocation("echo", &["hello", "world"])));
}

#[test]
fn resolve_never_runs_the_name_itself() {
    let config = config(&[("safe", "uptime")]);
    assert_eq!(
        resolve(&request("rm -rf /"), &config),
        Err(LookupError::NotFound("rm -rf /".to_string()))
    );
}

#[test]
fn resolve_reports_a_missing_name() {
    let config = config(&[("echo", "echo hi")]);
    assert_eq!(resolve(&no_command(), &config), Err(LookupError::MissingInput));
}

#[test]
fn resolve_reports_an_unknown_name() {
    let config = config(&[("echo", "echo hi")]);
    assert_eq!(
        resolve(&request("ls-all"), &config),
        Err(LookupError::NotFound("ls-all".to_string()))
    );
}

#[test]
fn resolve_accepts_an_empty_invocation_string() {
    let config = config(&[("nothing", "")]);
    assert_eq!(resolve(&request("nothing"), &config), Ok(invocation("", &[])));
}

#[test]
fn resolve_does_not_know_an_entry_that_is_not_a_string() {
    let mut table = Table::new();
    table.insert("seven".to_string(), Value::Integer(7));
    let config = Config::new(TOKEN.to_string(), "log".to_string(), table);
    assert_eq!(
        resolve(&request("seven"), &config),
        Err(LookupError::NotFound("seven".to_string()))
    );
}

#[test]
fn exec_spawns_a_registered_command() {
    let config = config(&[("echo", "echo hi")]);
    assert_eq!(exec(&request("echo"), &config), Step::Spawn(invocation("echo", &["hi"])));
}

#[test]
fn exec_keeps_shell_syntax_in_one_argument() {
    let config = config(&[("tricky", "echo a;b")]);
    assert_eq!(exec(&request("tricky"), &config), Step::Spawn(invocation("echo", &["a;b"])));
}

#[test]
fn unknown_command_is_a_bad_request_naming_it() {
    let config = config(&[("echo", "echo hi")]);
    let expected = Response {
        status: 400,
        headers: vec![header("X-ERROR", "command ls-all not found")],
        body: Body::Empty,
    };
    assert_eq!(exec(&request("ls-all"), &config), Step::Reply(expected));
}

#[test]
fn unknown_command_name_is_reported_exactly() {
    let config = config(&[("echo", "echo hi")]);
    for name in ["", " ", "echo ", "ECHO", "a b  c", "naïve", "x\ty", "not found"] {
        match exec(&request(name), &config) {
            Step::Reply(response) => {
                assert_eq!(response.status, 400);
                assert_eq!(response.headers.len(), 1);
                assert_eq!(response.headers[0].0, "X-ERROR");
                assert_eq!(response.headers[0].1, format!("command {} not found", name));
                assert_eq!(response.body, Body::Empty);
            }
            Step::Spawn(_) => panic!("nothing is registered under {:?}", name),
        }
    }
}

#[test]
fn missing_command_is_forbidden() {
    let expected = Response {
        status: 403,
        headers: vec![header("x-error", "command is needed")],
        body: Body::Empty,
    };
    assert_eq!(exec(&no_command(), &config(&[("echo", "echo hi")])), Step::Reply(expected));
}

#[test]
fn missing_command_is_forbidden_with_an_empty_registry() {
    match exec(&no_command(), &config(&[])) {
        Step::Reply(response) => {
            assert_eq!(response.status, 403);
            assert_eq!(response.headers, vec![header("x-error", "command is needed")]);
        }
        Step::Spawn(_) => panic!("there is nothing to spawn"),
    }
}

#[test]
fn receive_with_the_secret_does_what_exec_does() {
    let config = config(&[("echo", "echo hi")]);
    for req in [request("echo"), request("ls-all"), no_command()] {
        assert_eq!(receive(Some(TOKEN), &req, &config), exec(&req, &config));
    }
}

#[test]
fn valid_command_with_invalid_token_is_unauthorized() {
    let config = config(&[("echo", "echo hi")]);
    match receive(Some("guess"), &request("echo"), &config) {
        Step::Reply(response) => assert_eq!(response.status, 401),
        Step::Spawn(_) => panic!("nothing may be spawned for a wrong token"),
    }
}

#[test]
fn wrong_token_is_unauthorized_whatever_is_asked() {
    let config = config(&[("echo", "echo hi")]);
    let expected = Response {
        status: 401,
        headers: Vec::new(),
        body: Body::Text("Wrong Token".to_string()),
    };
    for req in [request("echo"), request("ls-all"), request(""), no_command()] {
        for credentials in [Some("guess"), Some(""), Some("correct-horse "), None] {
            match receive(credentials, &req, &config) {
                Step::Reply(response) => assert_eq!(response, expected),
                Step::Spawn(_) => panic!("nothing may be spawned without the secret"),
            }
        }
    }
}

#[test]
fn auth_errors_are_answered_alike() {
    assert_eq!(
        Response::from_auth_error(&AuthError::MissingToken),
        Response::from_auth_error(&AuthError::WrongToken)
    );
    assert_eq!(Response::from_auth_error(&AuthError::WrongToken).status, 401);
}

#[test]
fn report_of_a_program_that_wrote_text() {
    let report = CommandOutput::new(&ran(b"hi\n", b"", Some(0)));
    assert_eq!(
        report,
        Ok(CommandOutput {
            output: "hi\n".to_string(),
            exitcode: Some(0),
            stderr: Some(String::new()),
        })
    );
}

#[test]
fn report_keeps_a_failing_exit_code_and_standard_error() {
    let report = CommandOutput::new(&ran(b"", b"ls: cannot access 'x'\n", Some(2))).unwrap();
    assert_eq!(report.output, "");
    assert_eq!(report.exitcode, Some(2));
    assert_eq!(report.stderr.as_deref(), Some("ls: cannot access 'x'\n"));
}

#[test]
fn report_of_a_program_ended_by_a_signal_has_no_exit_code() {
    let report = CommandOutput::new(&ran(b"partial", b"", None)).unwrap();
    assert_eq!(report.exitcode, None);
    assert_eq!(report.output, "partial");
}

#[test]
fn report_keeps_a_negative_exit_code() {
    let report = CommandOutput::new(&ran(b"", b"", Some(-1))).unwrap();
    assert_eq!(report.exitcode, Some(-1));
}

#[test]
fn report_decodes_multi_byte_text() {
    let stdout = [0x67, 0x72, 0xc3, 0xbc, 0xc3, 0x9f, 0x20, 0xe6, 0x97, 0xa5, 0x0a];
    let report = CommandOutput::new(&ran(&stdout, &[0xf0, 0x9f, 0x98, 0x80], Some(0))).unwrap();
    assert_eq!(report.output, "grüß 日\n");
    assert_eq!(report.output.chars().count(), 7);
    assert_eq!(report.stderr.as_deref(), Some("😀"));
}

#[test]
fn report_leaves_out_standard_error_that_is_not_text() {
    let report = CommandOutput::new(&ran(b"ok", &[0xff, 0xfe], Some(0))).unwrap();
    assert_eq!(report.output, "ok");
    assert_eq!(report.stderr, None);
}

#[test]
fn standard_output_that_is_not_text_is_a_decode_error() {
    assert_eq!(CommandOutput::new(&ran(&[0xff], b"", Some(0))), Err(DecodeError::InvalidOutput));
    assert_eq!(
        CommandOutput::new(&ran(&[b'a', 0xc3], b"fine", Some(0))),
        Err(DecodeError::InvalidOutput)
    );
    assert_eq!(
        CommandOutput::new(&ran(&[0xed, 0xa0, 0x80], b"", None)),
        Err(DecodeError::InvalidOutput)
    );
}

#[test]
fn echo_hi_is_reported_with_status_ok() {
    let config = config(&[("echo", "echo hi")]);
    let step = receive(Some(TOKEN), &request("echo"), &config);
    assert_eq!(step, Step::Spawn(invocation("echo", &["hi"])));
    let response = complete(Ok(ran(b"hi\n", b"", Some(0))));
    assert_eq!(
        response,
        Response {
            status: 200,
            headers: Vec::new(),
            body: Body::Json(CommandOutput {
                output: "hi\n".to_string(),
                exitcode: Some(0),
                stderr: Some(String::new()),
            }),
        }
    );
}

#[test]
fn ls_all_is_not_found_in_a_registry_of_echo() {
    let config = config(&[("echo", "echo hi")]);
    match receive(Some(TOKEN), &request("ls-all"), &config) {
        Step::Reply(response) => {
            assert_eq!(response.status, 400);
            assert_eq!(response.headers, vec![header("X-ERROR", "command ls-all not found")]);
        }
        Step::Spawn(_) => panic!("ls-all is not registered"),
    }
}

#[test]
fn empty_request_is_forbidden() {
    let config = config(&[("echo", "echo hi")]);
    match receive(Some(TOKEN), &no_command(), &config) {
        Step::Reply(response) => {
            assert_eq!(response.status, 403);
            assert_eq!(response.headers, vec![header("x-error", "command is needed")]);
        }
        Step::Spawn(_) => panic!("no command was named"),
    }
}

#[test]
fn program_that_cannot_be_started_is_a_bad_request() {
    let config = config(&[("bad", "nonexistent-binary")]);
    let step = receive(Some(TOKEN), &request("bad"), &config);
    assert_eq!(step, Step::Spawn(invocation("nonexistent-binary", &[])));
    let error = SpawnError { message: "No such file or directory (os error 2)".to_string() };
    let response = complete(Err(error));
    assert_eq!(
        response,
        Response {
            status: 400,
            headers: Vec::new(),
            body: Body::Text("Error No such file or directory (os error 2)".to_string()),
        }
    );
}

#[test]
fn permission_denied_is_a_bad_request() {
    let error = SpawnError { message: "Permission denied (os error 13)".to_string() };
    let response = Response::from_spawn_error(&error);
    assert_eq!(response.status, 400);
    assert_eq!(response.body, Body::Text("Error Permission denied (os error 13)".to_string()));
    assert!(response.headers.is_empty());
}

#[test]
fn output_that_is_not_text_is_answered_and_not_dropped() {
    let response = complete(Ok(ran(&[0x80, 0x81], b"", Some(0))));
    assert_eq!(
        response,
        Response {
            status: 500,
            headers: Vec::new(),
            body: Body::Text("Error output is not valid UTF-8".to_string()),
        }
    );
    assert_eq!(response, Response::from_decode_error(&DecodeError::InvalidOutput));
}

#[test]
fn failing_program_is_still_reported_with_status_ok() {
    let response = complete(Ok(ran(b"", b"boom\n", Some(3))));
    assert_eq!(response.status, 200);
    assert_eq!(
        response.body,
        Body::Json(CommandOutput {
            output: String::new(),
            exitcode: Some(3),
            stderr: Some("boom\n".to_string()),
        })
    );
}

#[test]
fn lookup_errors_have_their_responses() {
    assert_eq!(Response::from_lookup_error(&LookupError::MissingInput).status, 403);
    let response = Response::from_lookup_error(&LookupError::NotFound("x".to_string()));
    assert_eq!(response.status, 400);
    assert_eq!(response.headers, vec![header("X-ERROR", "command x not found")]);
}

#[test]
fn response_from_output_carries_the_report() {
    let report = CommandOutput { output: "o".to_string(), exitcode: None, stderr: None };
    let response = Response::from_output(report);
    assert_eq!(response.status, 200);
    assert_eq!(
        response.body,
        Body::Json(CommandOutput { output: "o".to_string(), exitcode: None, stderr: None })
    );
}

#[test]
fn requests_for_different_commands_do_not_affect_each_other() {
    let config = config(&[("one", "sleep 10"), ("two", "echo quick")]);
    let first = exec(&request("one"), &config);
    let second = exec(&request("two"), &config);
    assert_eq!(first, Step::Spawn(invocation("sleep", &["10"])));
    assert_eq!(second, Step::Spawn(invocation("echo", &["quick"])));
    let answer = complete(Ok(ran(b"quick\n", b"", Some(0))));
    assert_eq!(answer.status, 200);
    assert_eq!(exec(&request("one"), &config), first);
}

#[test]
fn every_registered_name_is_spawned_as_registered() {
    let entries = [
        ("echo", "echo hi"),
        ("list", "ls -l /tmp"),
        ("date", "date"),
        ("odd name", "true"),
        ("", "whoami"),
    ];
    let config = config(&entries);
    for (name, line) in entries {
        assert_eq!(
            receive(Some(TOKEN), &request(name), &config),
            Step::Spawn(Invocation::parse(line))
        );
    }
}

#[test]
fn output_and_exit_code_are_reported_as_they_came() {
    for (stdout, code) in
        [("", 0), ("hi\n", 0), ("line one\nline two\n", 1), ("no newline", 255), ("x", -7)]
    {
        let response = complete(Ok(ran(stdout.as_bytes(), b"", Some(code))));
        assert_eq!(response.status, 200);
        match response.body {
            Body::Json(report) => {
                assert_eq!(report.output, stdout);
                assert_eq!(report.exitcode, Some(code));
            }
            other => panic!("a report was expected, not {:?}", other),
        }
    }
}

#[test]
fn spawn_error_message_is_passed_on_whole() {
    for message in ["", "No such file or directory (os error 2)", "Exec format error (os error 8)"] {
        let response = complete(Err(SpawnError { message: message.to_string() }));
        assert_eq!(response.status, 400);
        assert_eq!(response.body, Body::Text(format!("Error {}", message)));
    }
}

#[test]
fn name_is_matched_exactly() {
    let config = config(&[("echo", "echo hi")]);
    for name in ["Echo", "echo ", " echo", "ech", "echoo", "echo\n"] {
        assert_eq!(
            resolve(&request(name), &config),
            Err(LookupError::NotFound(name.to_string()))
        );
    }
}
