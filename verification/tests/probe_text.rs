use batchconv::probe::{probe_report, ProbeOutcome};
use batchconv::text::{str_eq, u64_to_string};

#[test]
fn probe_missing_tool_diagnostic() {
    let r = probe_report(ProbeOutcome::NotFound);
    assert_eq!(r, Err("conversion tool not found: install it and make it reachable".to_string()));
}

#[test]
fn probe_nonzero_exit_diagnostic() {
    let r = probe_report(ProbeOutcome::Ran { exit_ok: false, stdout: "whatever".to_string() });
    assert_eq!(r, Err("conversion tool was found but returned an error".to_string()));
}

#[test]
fn probe_empty_output_falls_back() {
    let r = probe_report(ProbeOutcome::Ran { exit_ok: true, stdout: String::new() });
    assert_eq!(r, Ok("tool found".to_string()));
}

#[test]
fn probe_reports_first_line() {
    let out = "ffmpeg version 6.0\nbuilt with gcc\nconfiguration: ...".to_string();
    let r = probe_report(ProbeOutcome::Ran { exit_ok: true, stdout: out });
    assert_eq!(r, Ok("ffmpeg version 6.0".to_string()));
}

#[test]
fn probe_single_line_without_newline() {
    let r = probe_report(ProbeOutcome::Ran { exit_ok: true, stdout: "v1.2.3".to_string() });
    assert_eq!(r, Ok("v1.2.3".to_string()));
}

#[test]
fn decimal_rendering() {
    assert_eq!(u64_to_string(0), "0");
    assert_eq!(u64_to_string(7), "7");
    assert_eq!(u64_to_string(10), "10");
    assert_eq!(u64_to_string(44100), "44100");
    assert_eq!(u64_to_string(u64::MAX), "18446744073709551615");
}

#[test]
fn string_equality_helper() {
    assert!(str_eq("", ""));
    assert!(str_eq("abc", "abc"));
    assert!(!str_eq("abc", "abd"));
    assert!(!str_eq("abc", "abcd"));
}
