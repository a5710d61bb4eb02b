use cradle::build_config;
use cradle::run_cmd;
use cradle::Context;
use cradle::Error;
use cradle::Input;
use cradle::StdoutTrimmed;
use cradle::StdoutUntrimmed;

fn arg(s: &str) -> Input {
    Input::Arg(s.to_string())
}

fn split(s: &str) -> Input {
    Input::Split(s.to_string())
}

fn temp_dir() -> String {
    let r: Result<StdoutTrimmed, Error> =
        run_cmd(&Context::production(), build_config(vec![split("mktemp -d")]));
    let StdoutTrimmed(dir) = r.unwrap();
    dir
}

fn file_exists(dir: &str, name: &str) -> bool {
    let r: Result<bool, Error> = run_cmd(
        &Context::production(),
        build_config(vec![
            arg("test"),
            arg("-e"),
            arg(name),
            Input::CurrentDir(dir.to_string()),
        ]),
    );
    r.unwrap()
}

#[test]
fn allows_to_execute_a_command() {
    let dir = temp_dir();
    let r: Result<(), Error> = run_cmd(
        &Context::production(),
        build_config(vec![split("touch foo"), Input::CurrentDir(dir.clone())]),
    );
    r.unwrap();
    assert!(file_exists(&dir, "foo"));
}

#[test]
fn no_errors() {
    let r: Result<(), Error> = run_cmd(&Context::production(), build_config(vec![arg("true")]));
    r.unwrap();
}

#[test]
fn works_for_string() {
    let command: String = "true".to_string();
    let r: Result<(), Error> =
        run_cmd(&Context::production(), build_config(vec![Input::Arg(command)]));
    r.unwrap();
}

#[test]
fn elements_in_arrays_are_not_split_by_whitespace() {
    let dir = temp_dir();
    let args: [&str; 1] = ["foo bar"];
    let r: Result<(), Error> = run_cmd(
        &Context::production(),
        build_config(vec![
            arg("touch"),
            Input::Args(args.iter().map(|a| a.to_string()).collect()),
            Input::CurrentDir(dir.clone()),
        ]),
    );
    r.unwrap();
    assert!(file_exists(&dir, "foo bar"));
}

#[test]
fn elements_in_array_refs_are_not_split_by_whitespace() {
    let dir = temp_dir();
    let args: &[&str; 1] = &["foo bar"];
    let r: Result<(), Error> = run_cmd(
        &Context::production(),
        build_config(vec![
            arg("touch"),
            Input::Args(args.iter().map(|a| a.to_string()).collect()),
            Input::CurrentDir(dir.clone()),
        ]),
    );
    r.unwrap();
    assert!(file_exists(&dir, "foo bar"));
}

#[test]
fn elements_in_slices_are_not_split_by_whitespace() {
    let dir = temp_dir();
    let args: &[&str] = &["foo bar"];
    let r: Result<(), Error> = run_cmd(
        &Context::production(),
        build_config(vec![
            arg("touch"),
            Input::Args(args.iter().map(|a| a.to_string()).collect()),
            Input::CurrentDir(dir.clone()),
        ]),
    );
    r.unwrap();
    assert!(file_exists(&dir, "foo bar"));
}

#[test]
fn does_not_split_strings_in_vectors() {
    let dir = temp_dir();
    let argument: Vec<String> = vec!["filename with spaces".to_string()];
    let r: Result<(), Error> = run_cmd(
        &Context::production(),
        build_config(vec![
            arg("touch"),
            Input::Args(argument),
            Input::CurrentDir(dir.clone()),
        ]),
    );
    r.unwrap();
    assert!(file_exists(&dir, "filename with spaces"));
}

#[test]
fn trailing_comma_is_accepted_after_normal_argument() {
    let r: Result<(), Error> =
        run_cmd(&Context::production(), build_config(vec![arg("echo"), arg("foo")]));
    r.unwrap();
    let r: Result<StdoutUntrimmed, Error> =
        run_cmd(&Context::production(), build_config(vec![arg("echo"), arg("foo")]));
    let StdoutUntrimmed(_) = r.unwrap();
    let _result: Result<(), Error> =
        run_cmd(&Context::production(), build_config(vec![arg("echo"), arg("foo")]));
}

#[test]
fn trailing_comma_is_accepted_after_split_argument() {
    let r: Result<(), Error> =
        run_cmd(&Context::production(), build_config(vec![arg("echo"), split("foo")]));
    r.unwrap();
    let r: Result<StdoutUntrimmed, Error> =
        run_cmd(&Context::production(), build_config(vec![arg("echo"), split("foo")]));
    let StdoutUntrimmed(_) = r.unwrap();
    let _result: Result<(), Error> =
        run_cmd(&Context::production(), build_config(vec![arg("echo"), split("foo")]));
}

#[test]
fn in_cmd_unit() {
    let r: Result<(), Error> =
        run_cmd(&Context::production(), build_config(vec![split("echo foo")]));
    r.unwrap();
}

#[test]
fn in_cmd_result() {
    let r: Result<StdoutTrimmed, Error> =
        run_cmd(&Context::production(), build_config(vec![split("echo foo")]));
    let StdoutTrimmed(_) = r.unwrap();
}

#[test]
fn sets_the_working_directory() {
    let dir = temp_dir();
    let setup: Result<(), Error> = run_cmd(
        &Context::production(),
        build_config(vec![
            arg("sh"),
            arg("-c"),
            arg("mkdir dir && printf foo > dir/file && printf 'wrong file' > file"),
            Input::CurrentDir(dir.clone()),
        ]),
    );
    setup.unwrap();
    let mut inner = dir.clone();
    inner.push_str("/dir");
    let r: Result<StdoutUntrimmed, Error> = run_cmd(
        &Context::production(),
        build_config(vec![split("cat file"), Input::CurrentDir(inner)]),
    );
    let StdoutUntrimmed(output) = r.unwrap();
    assert_eq!(output, "foo");
}
