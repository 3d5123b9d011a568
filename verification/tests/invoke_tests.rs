use githooks::hooks::HookResult as CollapsedResult;
use githooks::hookspath::{FileStatus, HookPaths};
use githooks::invoke::{sh_quote, HookResult, ProcessOutput, ENOEXEC};
use githooks::paths::Platform;

fn sample_paths() -> HookPaths {
    HookPaths {
        git: String::from("/wt/.git"),
        hook: String::from("/wt/.git/hooks/pre-commit"),
        pwd: String::from("/wt"),
    }
}

#[test]
fn test_sh_quote_plain() {
    assert_eq!(sh_quote("/wt/hooks/pre-commit"), "'/wt/hooks/pre-commit'");
}

#[test]
fn test_sh_quote_embedded_quote() {
    // closing quote, escaped quote, reopened quote
    assert_eq!(sh_quote("a'b"), "'a'\\''b'");
    assert_eq!(sh_quote("'"), "''\\'''");
    assert_eq!(sh_quote(""), "''");
}

#[test]
fn test_first_command_unix_is_direct() {
    let hp = sample_paths();
    let args = vec![String::from(".git/COMMIT_EDITMSG")];
    let c = hp.first_command(Platform::Unix, "/bin/sh", &args);
    assert_eq!(c.program, "/wt/.git/hooks/pre-commit");
    assert_eq!(c.args, vec![".git/COMMIT_EDITMSG"]);
    assert_eq!(c.current_dir, "/wt");
    assert!(!c.suppress_console);
}

#[test]
fn test_first_command_windows_uses_shell() {
    let hp = HookPaths {
        git: String::from("C:\\wt\\.git"),
        hook: String::from("C:\\wt\\hooks\\it's"),
        pwd: String::from("C:\\wt"),
    };
    let args = vec![String::from("msgfile")];
    let c = hp.first_command(Platform::Windows, "sh.exe", &args);
    assert_eq!(c.program, "sh.exe");
    assert_eq!(
        c.args,
        vec![
            String::from("-l"),
            String::from("-c"),
            String::from("'C:\\wt\\hooks\\it'\\''s' \"$@\""),
            String::from("C:\\wt\\hooks\\it's"),
            String::from("msgfile"),
        ]
    );
    assert_eq!(c.current_dir, "C:\\wt");
    assert!(c.suppress_console);
}

#[test]
fn test_retry_only_on_exec_format_error() {
    let hp = sample_paths();
    let args = vec![String::from("a1")];
    let retry = hp.retry_command(Platform::Unix, "/bin/sh", &args, Some(ENOEXEC));
    let c = retry.expect("exec format error must trigger the shell retry");
    assert_eq!(c.program, "/bin/sh");
    assert_eq!(c.args, vec!["/wt/.git/hooks/pre-commit", "a1"]);
    assert_eq!(c.current_dir, "/wt");
    assert!(hp.retry_command(Platform::Unix, "/bin/sh", &args, Some(2)).is_none());
    assert!(hp.retry_command(Platform::Unix, "/bin/sh", &args, None).is_none());
    assert!(hp.retry_command(Platform::Windows, "sh.exe", &args, Some(ENOEXEC)).is_none());
}

#[test]
fn test_run_hook_success() {
    let hp = sample_paths();
    let out = ProcessOutput {
        success: true,
        code: Some(0),
        stdout: String::from("all good\n"),
        stderr: String::new(),
    };
    assert_eq!(
        hp.run_hook(&out),
        HookResult::RanOk { hook: String::from("/wt/.git/hooks/pre-commit") }
    );
}

#[test]
fn test_failed_hook_carries_output() {
    let hp = sample_paths();
    let out = ProcessOutput {
        success: false,
        code: Some(1),
        stdout: String::from("rejected\n"),
        stderr: String::from("stop\n"),
    };
    let r = hp.run_hook(&out);
    assert_eq!(
        r,
        HookResult::RunNotSuccessful {
            code: Some(1),
            stdout: String::from("rejected\n"),
            stderr: String::from("stop\n"),
            hook: String::from("/wt/.git/hooks/pre-commit"),
        }
    );
    // the collapsed outcome carries stdout then stderr, verbatim
    assert_eq!(
        CollapsedResult::from_invoke(r),
        CollapsedResult::NotOk(String::from("rejected\nstop\n"))
    );
}

#[test]
fn test_signal_termination_has_no_code() {
    let hp = sample_paths();
    let out = ProcessOutput {
        success: false,
        code: None,
        stdout: String::new(),
        stderr: String::new(),
    };
    let r = hp.run_hook(&out);
    assert_eq!(
        r,
        HookResult::RunNotSuccessful {
            code: None,
            stdout: String::new(),
            stderr: String::new(),
            hook: String::from("/wt/.git/hooks/pre-commit"),
        }
    );
}

#[test]
fn test_absent_hook_is_ok() {
    let hp = sample_paths();
    let missing = FileStatus { exists: false, unix_mode: 0 };
    let outcome = hp.outcome_if_missing(Platform::Unix, &missing);
    assert_eq!(outcome, Some(HookResult::NoHookFound));
    assert_eq!(
        CollapsedResult::from_invoke(HookResult::NoHookFound),
        CollapsedResult::Okay
    );
}

#[test]
fn test_present_hook_must_run() {
    let hp = sample_paths();
    let present = FileStatus { exists: true, unix_mode: 0o755 };
    assert_eq!(hp.outcome_if_missing(Platform::Unix, &present), None);
}

#[test]
fn test_collapse_success() {
    assert_eq!(
        CollapsedResult::from_invoke(HookResult::RanOk { hook: String::from("/h") }),
        CollapsedResult::Okay
    );
}
