use terminal_runner::get_file_path;
use terminal_runner::outcome::{classify_outcome, command_result, stdout_result, CommandError, ProcessOutput};
use terminal_runner::request::CommandRequest;

fn exited(success: bool, stdout: &[u8], stderr: &[u8]) -> ProcessOutput {
    ProcessOutput { success, stdout: stdout.to_vec(), stderr: stderr.to_vec() }
}

#[test]
fn file_path_is_passed_through() {
    assert_eq!(get_file_path(String::from("/tmp/a b/c.txt")), Ok(String::from("/tmp/a b/c.txt")));
    assert_eq!(get_file_path(String::new()), Ok(String::new()));
    assert_eq!(get_file_path(String::from("/home/zoë/日本語.md")), Ok(String::from("/home/zoë/日本語.md")));
}

#[test]
fn echo_output_is_returned() {
    let r = command_result(Ok(exited(true, b"hello world\n", b"")));
    assert_eq!(r, Ok(String::from("hello world\n")));
}

#[test]
fn success_returns_exact_stdout_even_with_stderr() {
    let r = command_result(Ok(exited(true, "ünïcode\n\tline".as_bytes(), b"warning: ignored")));
    assert_eq!(r, Ok(String::from("ünïcode\n\tline")));
}

#[test]
fn false_fails_with_empty_message() {
    let r = command_result(Ok(exited(false, b"", b"")));
    assert_eq!(r, Err(String::new()));
    assert_eq!(
        classify_outcome(Ok(exited(false, b"", b""))),
        Err(CommandError::NonZeroExit(String::new()))
    );
}

#[test]
fn failed_exit_returns_stderr_whatever_stdout() {
    let a = command_result(Ok(exited(false, b"partial output", b"boom\n")));
    let b = command_result(Ok(exited(false, &[0xff, 0xfe], b"boom\n")));
    assert_eq!(a, Err(String::from("boom\n")));
    assert_eq!(b, Err(String::from("boom\n")));
}

#[test]
fn failed_exit_decodes_stderr_lossily() {
    let r = command_result(Ok(exited(false, b"", &[b'b', b'a', b'd', 0xff, b'!'])));
    assert_eq!(r, Err(String::from("bad\u{FFFD}!")));
}

#[test]
fn missing_executable_is_spawn_failure() {
    let os = String::from("No such file or directory (os error 2)");
    assert_eq!(
        classify_outcome(Err(os.clone())),
        Err(CommandError::SpawnFailure(os.clone()))
    );
    let r = command_result(Err(os));
    assert_eq!(
        r,
        Err(String::from("Failed to execute command: No such file or directory (os error 2)"))
    );
    assert!(r.unwrap_err().contains("No such file or directory"));
}

#[test]
fn invalid_stdout_on_success_is_decode_failure() {
    let r = classify_outcome(Ok(exited(true, &[0xff], b"")));
    assert_eq!(
        r,
        Err(CommandError::OutputDecodeFailure(String::from(
            "invalid utf-8 sequence of 1 bytes from index 0"
        )))
    );
    let t = command_result(Ok(exited(true, &[b'o', b'k', 0xc3], b"")));
    assert_eq!(
        t,
        Err(String::from(
            "Failed to parse command output: incomplete utf-8 byte sequence from index 2"
        ))
    );
}

#[test]
fn stdout_result_maps_decoding() {
    assert_eq!(stdout_result(Ok(String::from("x\n"))), Ok(String::from("x\n")));
    assert_eq!(
        stdout_result(Err(String::from("bad"))),
        Err(CommandError::OutputDecodeFailure(String::from("bad")))
    );
}

#[test]
fn error_messages() {
    assert_eq!(
        CommandError::SpawnFailure(String::from("denied")).message(),
        "Failed to execute command: denied"
    );
    assert_eq!(CommandError::NonZeroExit(String::from("oops")).message(), "oops");
    assert_eq!(
        CommandError::OutputDecodeFailure(String::from("bad")).message(),
        "Failed to parse command output: bad"
    );
}

#[test]
fn request_keeps_arguments_literal_and_in_order() {
    let args = vec![
        String::from("a b"),
        String::from("$HOME"),
        String::from("; rm -rf /"),
        String::new(),
    ];
    let r = CommandRequest::new(String::from("printf"), args.clone());
    assert_eq!(r.command, "printf");
    assert_eq!(r.arguments, args);
}
