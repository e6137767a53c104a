use command_launcher::error::LauncherError;
use command_launcher::exec::{
    conclude, invocation, notification, outcome, report, ExecutionResult, ProcessOutput,
    MAX_STREAM_LEN,
};

fn output(succeeded: bool, stdout: &[u8], stderr: &[u8]) -> ProcessOutput {
    ProcessOutput { succeeded, stdout: stdout.to_vec(), stderr: stderr.to_vec() }
}

#[test]
fn invocation_hands_the_line_to_the_fixed_shell() {
    let start = invocation("Get-ChildItem | Select-Object -First 1");
    assert_eq!(start.program, "powershell.exe");
    assert_eq!(start.arguments, vec!["-Command", "Get-ChildItem | Select-Object -First 1"]);
}

#[test]
fn invocation_does_not_quote_or_split_the_line() {
    let line = "echo \"a b\"; rm -rf 'x y' && $env:PATH";
    let start = invocation(line);
    assert_eq!(start.arguments.len(), 2);
    assert_eq!(start.arguments[1], line);
    assert_eq!(invocation("").arguments, vec!["-Command", ""]);
}

#[test]
fn execution_success() {
    let result = conclude(&output(true, b"ok", b""));
    assert!(result.succeeded);
    assert_eq!(result.message, "Success: ok");
}

#[test]
fn execution_success_keeps_line_endings() {
    let result = conclude(&output(true, b"ok\r\n", b"ignored"));
    assert!(result.succeeded);
    assert_eq!(result.message, "Success: ok\r\n");
}

#[test]
fn execution_failure() {
    let result = conclude(&output(false, b"from stdout", b"boom"));
    assert!(!result.succeeded);
    assert_eq!(result.message, "Failure: boom");
    assert!(result.message.starts_with("Failure: "));
    assert!(!result.message.contains("from stdout"));
}

#[test]
fn success_is_never_built_from_standard_error() {
    let result = conclude(&output(true, b"fine", b"warning"));
    assert_eq!(result.message, "Success: fine");
}

#[test]
fn empty_streams_give_the_bare_prefix() {
    assert_eq!(conclude(&output(true, b"", b"x")).message, "Success: ");
    assert_eq!(conclude(&output(false, b"x", b"")).message, "Failure: ");
}

#[test]
fn encoding_decodes_shift_jis() {
    // "こんにちは" in Shift_JIS
    let bytes = [0x82, 0xB1, 0x82, 0xF1, 0x82, 0xC9, 0x82, 0xBF, 0x82, 0xCD];
    let result = conclude(&output(true, &bytes, b""));
    assert_eq!(result.message, "Success: \u{3053}\u{3093}\u{306B}\u{3061}\u{306F}");
    let result = conclude(&output(false, b"", &bytes));
    assert_eq!(result.message, "Failure: \u{3053}\u{3093}\u{306B}\u{3061}\u{306F}");
}

#[test]
fn encoding_decodes_half_width_katakana_and_ascii() {
    let result = conclude(&output(true, &[0x41, 0xB1, 0x42], b""));
    assert_eq!(result.message, "Success: A\u{FF71}B");
}

#[test]
fn encoding_replaces_invalid_sequences() {
    let result = conclude(&output(false, b"", &[0x61, 0xFF, 0x62]));
    assert_eq!(result.message, "Failure: a\u{FFFD}b");
    let result = conclude(&output(true, &[0x6F, 0x6B, 0x82], b""));
    assert_eq!(result.message, "Success: ok\u{FFFD}");
}

#[test]
fn encoding_is_not_utf8() {
    // "あ" in UTF-8 is three bytes that Shift_JIS reads otherwise
    let result = conclude(&output(true, "\u{3042}".as_bytes(), b""));
    assert_ne!(result.message, "Success: \u{3042}");
    assert!(result.message.starts_with("Success: "));
}

#[test]
fn report_prefixes_by_outcome() {
    let shown: ExecutionResult = report(true, "ok");
    assert!(shown.succeeded);
    assert_eq!(shown.message, "Success: ok");
    let shown = report(false, "no such command");
    assert!(!shown.succeeded);
    assert_eq!(shown.message, "Failure: no such command");
    assert_eq!(report(false, "").message, "Failure: ");
}

#[test]
fn outcome_of_a_shell_that_did_not_start_is_an_error() {
    assert!(matches!(outcome(None), Err(LauncherError::ProcessLaunch)));
}

#[test]
fn outcome_of_a_command_that_ran_and_failed_is_a_result() {
    match outcome(Some(output(false, b"", b"denied"))) {
        Ok(shown) => {
            assert!(!shown.succeeded);
            assert_eq!(shown.message, "Failure: denied");
        }
        Err(error) => panic!("a launched process gave {:?}", error),
    }
    match outcome(Some(output(true, b"ok", b""))) {
        Ok(shown) => assert_eq!(shown.message, "Success: ok"),
        Err(error) => panic!("a launched process gave {:?}", error),
    }
}

#[test]
fn notification_carries_the_message() {
    let shown = notification(&report(false, "boom"));
    assert_eq!(shown.title, "Command-Launcher Notification");
    assert_eq!(shown.body, "Failure: boom");
}

#[test]
fn decodable_looks_at_the_reported_stream_only() {
    assert!(output(true, b"ok", b"").is_decodable());
    assert!(output(false, b"", b"boom").is_decodable());
    let long = vec![0x20u8; MAX_STREAM_LEN + 1];
    assert!(!output(true, &long, b"").is_decodable());
    assert!(output(false, &long, b"").is_decodable());
    assert!(!output(false, b"", &long).is_decodable());
    assert!(output(true, b"", &long).is_decodable());
    assert_eq!(MAX_STREAM_LEN, 0x0FFF_FFFF);
}
