use login_helper::outcome::{
    exit_code, prefixed, Client, Failures, RunReport, RunResult, NO_EXIT_CODE,
};
use login_helper::text::{push_decimal, push_signed_decimal};

#[test]
fn messages_per_variant() {
    for client in [Client::Terminal, Client::RemoteDesktop] {
        assert_eq!(RunResult::Success.message(client), "ログイン処理が完了しました。");
        assert_eq!(
            RunResult::LaunchError { cause: "no such file".to_string() }.message(client),
            "no such file"
        );
        assert_eq!(RunResult::EncodingError.message(client), "マクロのエンコードに失敗しました。");
        assert_eq!(RunResult::CleanupError { cause: "busy".to_string() }.message(client), "busy");
    }
}

#[test]
fn process_failure_is_worded_after_the_client() {
    assert_eq!(
        RunResult::ProcessFailure { code: 3 }.message(Client::Terminal),
        "TeraTerm macro execution failed"
    );
    assert_eq!(
        RunResult::ProcessFailure { code: 3 }.message(Client::RemoteDesktop),
        "RDP session failed. Exit code: 3"
    );
    assert_eq!(
        RunResult::ProcessFailure { code: -1 }.message(Client::RemoteDesktop),
        "RDP session failed. Exit code: -1"
    );
    assert_eq!(
        RunResult::ProcessFailure { code: i32::MIN }.message(Client::RemoteDesktop),
        "RDP session failed. Exit code: -2147483648"
    );
}

#[test]
fn only_success_is_success() {
    assert!(RunResult::Success.is_success());
    assert!(!RunResult::ProcessFailure { code: 0 }.is_success());
    assert!(!RunResult::EncodingError.is_success());
    assert!(!RunResult::LaunchError { cause: String::new() }.is_success());
    assert!(!RunResult::CleanupError { cause: String::new() }.is_success());
}

#[test]
fn missing_exit_code_is_minus_one() {
    assert_eq!(NO_EXIT_CODE, -1);
    assert_eq!(exit_code(None), -1);
    assert_eq!(exit_code(Some(0)), 0);
    assert_eq!(exit_code(Some(127)), 127);
    assert_eq!(exit_code(Some(-5)), -5);
}

#[test]
fn decimal_texts() {
    let mut out = String::from("x");
    push_decimal(&mut out, 0);
    push_decimal(&mut out, 7);
    push_decimal(&mut out, 10);
    push_decimal(&mut out, 255);
    push_decimal(&mut out, u64::MAX);
    assert_eq!(out, "x071025518446744073709551615");
}

#[test]
fn signed_decimal_texts() {
    let mut out = String::new();
    push_signed_decimal(&mut out, 0);
    out.push(' ');
    push_signed_decimal(&mut out, -1);
    out.push(' ');
    push_signed_decimal(&mut out, i32::MAX);
    out.push(' ');
    push_signed_decimal(&mut out, i32::MIN);
    assert_eq!(out, "0 -1 2147483647 -2147483648");
}

#[test]
fn prefixed_puts_the_prefix_first() {
    assert_eq!(prefixed("File write error: ", "disk full"), "File write error: disk full");
    assert_eq!(prefixed("", ""), "");
}

#[test]
fn no_failure_reports_success() {
    assert_eq!(
        Failures::new().into_report(true),
        RunReport { result: RunResult::Success, secondary: vec![], notify: true }
    );
    assert_eq!(
        Failures::new().into_report(false),
        RunReport { result: RunResult::Success, secondary: vec![], notify: false }
    );
}

#[test]
fn first_failure_is_the_result_and_later_ones_go_with_it() {
    let failures = Failures::new()
        .record(RunResult::ProcessFailure { code: 2 })
        .record(RunResult::CleanupError { cause: "File deletion failed: busy".to_string() })
        .record(RunResult::CleanupError { cause: "File deletion failed: gone".to_string() });
    assert_eq!(
        failures.into_report(true),
        RunReport {
            result: RunResult::ProcessFailure { code: 2 },
            secondary: vec![
                RunResult::CleanupError { cause: "File deletion failed: busy".to_string() },
                RunResult::CleanupError { cause: "File deletion failed: gone".to_string() }
            ],
            notify: false,
        }
    );
}
