use cradle::build_config;
use cradle::run_cmd;
use cradle::Context;
use cradle::Error;
use cradle::Input;
use cradle::StdoutTrimmed;
use cradle::StdoutUntrimmed;

fn arg(s: &str) -> Input {
    Input::Arg(s.to_string())
}

fn split(s: &str) -> Input {
    Input::Split(s.to_string())
}

fn stdout_trimmed(inputs: Vec<Input>) -> String {
    let r: Result<StdoutTrimmed, Error> = run_cmd(&Context::production(), build_config(inputs));
    let StdoutTrimmed(output) = r.unwrap();
    output
}

fn stdout_untrimmed(inputs: Vec<Input>) -> String {
    let r: Result<StdoutUntrimmed, Error> = run_cmd(&Context::production(), build_config(inputs));
    let StdoutUntrimmed(output) = r.unwrap();
    output
}

#[test]
fn allows_to_pass_in_arguments_as_a_vec_of_ref_str() {
    let args: Vec<&str> = vec!["foo"];
    let output = stdout_trimmed(vec![
        arg("echo"),
        Input::Args(args.iter().map(|a| a.to_string()).collect()),
    ]);
    assert_eq!(output, "foo");
}

#[test]
fn vector_of_non_strings() {
    let context = Context::test();
    let r: Result<StdoutTrimmed, Error> = run_cmd(
        &context,
        build_config(vec![Input::LogCommand, split("echo foo")]),
    );
    let StdoutTrimmed(stdout) = r.unwrap();
    assert_eq!(stdout, "foo");
    assert_eq!(context.stderr(), "+ echo foo\n");
}

#[test]
fn vector_of_vectors() {
    let output = stdout_trimmed(vec![
        Input::Args(vec!["echo".to_string()]),
        Input::Args(vec!["foo".to_string(), "bar".to_string()]),
    ]);
    assert_eq!(output, "foo bar");
}

#[test]
fn multiple_strings() {
    let command: String = "echo".to_string();
    let argument: String = "foo".to_string();
    let output = stdout_trimmed(vec![Input::Arg(command), Input::Arg(argument)]);
    assert_eq!(output, "foo");
}

#[test]
fn mix_ref_str_and_string() {
    let argument: String = "foo".to_string();
    let output = stdout_trimmed(vec![arg("echo"), Input::Arg(argument)]);
    assert_eq!(output, "foo");
}

#[test]
fn splits_words_by_whitespace() {
    let output = stdout_trimmed(vec![split("echo foo")]);
    assert_eq!(output, "foo");
}

#[test]
fn splits_owned_strings() {
    let output = stdout_trimmed(vec![Input::Split("echo foo".to_string())]);
    assert_eq!(output, "foo");
}

#[test]
fn skips_multiple_whitespace_characters() {
    let output = stdout_untrimmed(vec![arg("echo"), split("foo  bar")]);
    assert_eq!(output, "foo bar\n");
}

#[test]
fn lib_trims_leading_whitespace() {
    let output = stdout_trimmed(vec![split(" echo foo")]);
    assert_eq!(output, "foo");
}

#[test]
fn lib_trims_trailing_whitespace() {
    let output = stdout_untrimmed(vec![arg("echo"), split("foo ")]);
    assert_eq!(output, "foo\n");
}

#[test]
fn splits_words() {
    let output = stdout_untrimmed(vec![split("echo foo")]);
    assert_eq!(output, "foo\n");
}

#[test]
fn works_for_later_arguments() {
    let output = stdout_untrimmed(vec![arg("echo"), split("foo\tbar")]);
    assert_eq!(output, "foo bar\n");
}

#[test]
fn for_first_of_multiple_arguments() {
    let output = stdout_untrimmed(vec![split("echo foo"), arg("bar")]);
    assert_eq!(output, "foo bar\n");
}

#[test]
fn non_literals() {
    let command = "echo foo";
    let output = stdout_untrimmed(vec![split(command)]);
    assert_eq!(output, "foo\n");
}

#[test]
fn allow_to_use_split() {
    let args: Vec<String> = "echo foo".split(' ').map(|w| w.to_string()).collect();
    let output = stdout_trimmed(vec![Input::Args(args)]);
    assert_eq!(output, "foo");
}

#[test]
fn split_whitespace() {
    let args: Vec<String> = "echo foo".split_whitespace().map(|w| w.to_string()).collect();
    let output = stdout_trimmed(vec![Input::Args(args)]);
    assert_eq!(output, "foo");
}

#[test]
fn split_ascii_whitespace() {
    let args: Vec<String> = "echo foo".split_ascii_whitespace().map(|w| w.to_string()).collect();
    let output = stdout_trimmed(vec![Input::Args(args)]);
    assert_eq!(output, "foo");
}

#[test]
fn allows_to_pass_in_strings_as_stdin() {
    let output = stdout_untrimmed(vec![arg("cat"), Input::Stdin(b"foo".to_vec())]);
    assert_eq!(output, "foo");
}

#[test]
fn allows_passing_in_u8_slices_as_stdin() {
    let output = stdout_untrimmed(vec![arg("cat"), Input::Stdin(vec![0, 1, 2])]);
    assert_eq!(output, "\x00\x01\x02");
}

#[test]
fn multiple_stdin_arguments_are_all_passed_into_the_child_process() {
    let output = stdout_untrimmed(vec![
        arg("cat"),
        Input::Stdin(b"foo".to_vec()),
        Input::Stdin(b"bar".to_vec()),
    ]);
    assert_eq!(output, "foobar");
}

#[test]
fn stdin_is_closed_by_default() {
    let output = stdout_untrimmed(vec![arg("cat")]);
    assert_eq!(output, "");
}

#[test]
fn stdin_round_trip_keeps_every_byte_in_order() {
    let payload = "line one\nline two\nline three\n";
    let output = stdout_untrimmed(vec![arg("cat"), Input::Stdin(payload.as_bytes().to_vec())]);
    assert_eq!(output, payload);
}

#[test]
fn allows_to_add_variables() {
    let output = stdout_trimmed(vec![
        arg("sh"),
        arg("-c"),
        arg("echo $FOO"),
        Input::SetVar("FOO".to_string(), "bar".to_string()),
    ]);
    assert_eq!(output, "bar");
}

#[test]
fn works_for_multiple_variables() {
    let output = stdout_trimmed(vec![
        arg("sh"),
        arg("-c"),
        arg("echo $FOO-$BAR"),
        Input::SetVar("FOO".to_string(), "a".to_string()),
        Input::SetVar("BAR".to_string(), "b".to_string()),
    ]);
    assert_eq!(output, "a-b");
}

#[test]
fn variables_are_overwritten_by_subsequent_variables_with_the_same_name() {
    let output = stdout_trimmed(vec![
        arg("sh"),
        arg("-c"),
        arg("echo $FOO"),
        Input::SetVar("FOO".to_string(), "a".to_string()),
        Input::SetVar("FOO".to_string(), "b".to_string()),
    ]);
    assert_eq!(output, "b");
}

#[test]
fn variables_can_be_set_to_the_empty_string() {
    let output = stdout_trimmed(vec![
        arg("sh"),
        arg("-c"),
        arg("echo ${FOO+x}"),
        Input::SetVar("FOO".to_string(), "".to_string()),
    ]);
    assert_eq!(output, "x");
}

#[test]
fn combine_ok_with_other_outputs() {
    let output = stdout_trimmed(vec![split("echo foo")]);
    assert_eq!(output, "foo".to_string());
}

#[test]
fn arguments_can_be_given_as_references() {
    let executable: String = "echo".to_string();
    let argument: String = "foo".to_string();
    let output = stdout_trimmed(vec![Input::LogCommand, Input::Arg(executable), Input::Arg(argument)]);
    assert_eq!(output, "foo");
}

#[test]
fn arrays_as_arguments() {
    let args: [&str; 2] = ["echo", "foo"];
    let output = stdout_trimmed(vec![Input::Args(args.iter().map(|a| a.to_string()).collect())]);
    assert_eq!(output, "foo");
}

#[test]
fn arrays_of_non_strings() {
    let context = Context::test();
    let r: Result<StdoutTrimmed, Error> = run_cmd(
        &context,
        build_config(vec![Input::LogCommand, split("echo foo")]),
    );
    let StdoutTrimmed(stdout) = r.unwrap();
    assert_eq!(stdout, "foo");
    assert_eq!(context.stderr(), "+ echo foo\n");
}

#[test]
fn array_refs_as_arguments() {
    let args: &[&str; 2] = &["echo", "foo"];
    let output = stdout_trimmed(vec![Input::Args(args.iter().map(|a| a.to_string()).collect())]);
    assert_eq!(output, "foo");
}

#[test]
fn slices_as_arguments() {
    let args: &[&str] = &["echo", "foo"];
    let output = stdout_trimmed(vec![Input::Args(args.iter().map(|a| a.to_string()).collect())]);
    assert_eq!(output, "foo");
}

#[test]
fn slices_of_non_strings() {
    let context = Context::test();
    let r: Result<StdoutTrimmed, Error> = run_cmd(
        &context,
        build_config(vec![Input::LogCommand, split("echo foo")]),
    );
    let StdoutTrimmed(stdout) = r.unwrap();
    assert_eq!(stdout, "foo");
    assert_eq!(context.stderr(), "+ echo foo\n");
}
