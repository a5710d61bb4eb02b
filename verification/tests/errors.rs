use cradle::build_config;
use cradle::run_cmd;
use cradle::Context;
use cradle::Error;
use cradle::Input;
use cradle::Status;
use cradle::StdoutTrimmed;

fn arg(s: &str) -> Input {
    Input::Arg(s.to_string())
}

fn split(s: &str) -> Input {
    Input::Split(s.to_string())
}

#[test]
fn executable_cannot_be_found() {
    let r: Result<(), Error> =
        run_cmd(&Context::production(), build_config(vec![arg("does-not-exist")]));
    assert_eq!(
        r.unwrap_err().message(),
        "does-not-exist:\n  No such file or directory (os error 2)"
    );
}

#[test]
fn includes_full_command_on_missing_executables() {
    let r: Result<(), Error> =
        run_cmd(&Context::production(), build_config(vec![split("does-not-exist foo bar")]));
    assert_eq!(
        r.unwrap_err().message(),
        "does-not-exist foo bar:\n  No such file or directory (os error 2)"
    );
}

#[test]
#[should_panic(expected = "cmd!: false:\n  exited with exit code: 1")]
fn lib_non_zero_exit_codes() {
    let r: Result<(), Error> = run_cmd(&Context::production(), build_config(vec![arg("false")]));
    if let Err(e) = r {
        panic!("cmd!: {}", e.message());
    }
}

#[test]
#[should_panic(expected = "cmd!: no arguments given")]
fn lib_no_executable() {
    let vector: Vec<String> = Vec::new();
    let r: Result<(), Error> =
        run_cmd(&Context::production(), build_config(vec![Input::Args(vector)]));
    if let Err(e) = r {
        panic!("cmd!: {}", e.message());
    }
}

#[test]
fn non_zero_exit_codes() {
    let result: Result<(), Error> =
        run_cmd(&Context::production(), build_config(vec![arg("false")]));
    assert_eq!(result.unwrap_err().message(), "false:\n  exited with exit code: 1");
}

#[test]
fn combine_err_with_other_outputs() {
    let result: Result<StdoutTrimmed, Error> =
        run_cmd(&Context::production(), build_config(vec![arg("false")]));
    assert_eq!(result.unwrap_err().message(), "false:\n  exited with exit code: 1");
}

#[test]
fn includes_full_command_on_non_zero_exit_codes() {
    let result: Result<(), Error> =
        run_cmd(&Context::production(), build_config(vec![split("false foo bar")]));
    assert_eq!(result.unwrap_err().message(), "false foo bar:\n  exited with exit code: 1");
}

#[test]
fn lib_includes_full_command_on_missing_executables() {
    let result: Result<(), Error> =
        run_cmd(&Context::production(), build_config(vec![split("does-not-exist foo bar")]));
    assert_eq!(
        result.unwrap_err().message(),
        "does-not-exist foo bar:\n  No such file or directory (os error 2)"
    );
}

#[test]
fn lib_executable_cannot_be_found() {
    let result: Result<(), Error> =
        run_cmd(&Context::production(), build_config(vec![arg("does-not-exist")]));
    assert_eq!(
        result.unwrap_err().message(),
        "does-not-exist:\n  No such file or directory (os error 2)"
    );
}

#[test]
fn no_executable() {
    let vector: Vec<String> = Vec::new();
    let result: Result<(), Error> =
        run_cmd(&Context::production(), build_config(vec![Input::Args(vector)]));
    assert_eq!(result.unwrap_err().message(), "no arguments given");
}

#[test]
fn writing_too_many_bytes_into_a_non_reading_child_may_error() {
    let big: Vec<u8> = vec![b'a'; 2_usize.pow(16) + 1];
    let result: Result<(), Error> = run_cmd(
        &Context::production(),
        build_config(vec![arg("true"), Input::Stdin(big)]),
    );
    let message = result.unwrap_err().message();
    assert_eq!(message, "true:\n  Broken pipe (os error 32)");
}

#[test]
fn exit_code_forty_two_is_an_error_under_the_default_policy() {
    let result: Result<(), Error> =
        run_cmd(&Context::production(), build_config(vec![arg("sh"), arg("-c"), arg("exit 42")]));
    let message = result.unwrap_err().message();
    assert!(message.contains("exited with exit code: 42"));
}

#[test]
fn exit_code_forty_two_is_data_when_the_status_is_captured() {
    let result: Result<Status, Error> =
        run_cmd(&Context::production(), build_config(vec![arg("sh"), arg("-c"), arg("exit 42")]));
    let Status(exit_status) = result.unwrap();
    assert!(!exit_status.success());
    assert_eq!(exit_status.code(), Some(42));
}

#[test]
fn invalid_utf8_to_stdout_errors_when_captured() {
    let result: Result<StdoutTrimmed, Error> = run_cmd(
        &Context::production(),
        build_config(vec![arg("sh"), arg("-c"), arg("printf '\\200'")]),
    );
    assert_eq!(
        result.unwrap_err().message(),
        "sh -c 'printf '\\200'':\n  invalid utf-8 written to stdout"
    );
}

#[test]
fn invalid_utf8_to_stdout_is_allowed_when_not_captured() {
    let context = Context::test();
    let result: Result<(), Error> = run_cmd(
        &context,
        build_config(vec![arg("sh"), arg("-c"), arg("printf '\\200'")]),
    );
    result.unwrap();
}

#[test]
fn invalid_utf8_to_stderr_errors_when_captured() {
    let result: Result<cradle::Stderr, Error> = run_cmd(
        &Context::production(),
        build_config(vec![arg("sh"), arg("-c"), arg("printf '\\200' >&2")]),
    );
    let message = result.unwrap_err().message();
    assert!(message.ends_with("invalid utf-8 written to stderr"));
}

#[test]
fn invalid_utf8_to_stderr_is_allowed_when_not_captured() {
    let context = Context::test();
    let result: Result<(), Error> = run_cmd(
        &context,
        build_config(vec![arg("sh"), arg("-c"), arg("printf '\\200' >&2")]),
    );
    result.unwrap();
}

#[test]
#[should_panic(expected = "cmd!: false:\n  exited with exit code: 1")]
fn combine_panics_with_other_outputs() {
    let r: Result<StdoutTrimmed, Error> =
        run_cmd(&Context::production(), build_config(vec![arg("false")]));
    if let Err(e) = r {
        panic!("cmd!: {}", e.message());
    }
}

#[test]
fn stdin_failure_does_not_block_a_child_still_writing() {
    // The child closes its stdin at once and still has far more than a
    // pipe buffer to write: feeding fails, draining stops there, and the
    // call must come back with the I/O error instead of waiting on a
    // child that blocks against pipes nobody reads any more.
    let context = Context::test();
    let big: Vec<u8> = vec![b'a'; 2_usize.pow(16) + 1];
    let result: Result<(), Error> = run_cmd(
        &context,
        build_config(vec![
            arg("sh"),
            arg("-c"),
            arg("exec 0<&-; head -c 1048576 /dev/zero"),
            Input::Stdin(big),
        ]),
    );
    let message = result.unwrap_err().message();
    assert!(
        message.starts_with("sh -c 'exec 0<&-; head -c 1048576 /dev/zero':\n  "),
        "got: {}",
        message
    );
}
