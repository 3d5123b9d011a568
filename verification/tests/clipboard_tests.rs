use githooks::clipboard::{
    classify_copy_outcome, copy_string, copy_string_osc52, exec_copy, exec_copy_with_args,
    ClipboardContext, CopyAttempt,
};
use githooks::paths::Platform;

#[test]
fn test_copy_string_osc52() {
    assert_eq!(copy_string_osc52("foo"), "\x1b]52;c;Zm9v\x07");
}

#[test]
fn test_copy_string_osc52_empty() {
    assert_eq!(copy_string_osc52(""), "\x1b]52;c;\x07");
}

#[test]
fn test_exec_copy_fields() {
    let r = exec_copy("pbcopy", "hello");
    assert_eq!(r.command, "pbcopy");
    assert_eq!(r.stdin_text, "hello");
    assert!(r.args.is_empty());
    assert!(r.pipe_stderr);
}

#[test]
fn test_exec_copy_with_args_resolves_binary() {
    // `sh` is on every search path here: the resolved program is a path
    let r = exec_copy_with_args("sh", &vec![], "x", false);
    assert!(r.program.starts_with('/'), "expected an absolute path, got {}", r.program);
    assert!(r.program.ends_with("sh"));
    // an unknown command falls back to its bare name
    let missing = exec_copy_with_args("githooks-no-such-command-x9", &vec![], "x", false);
    assert_eq!(missing.program, "githooks-no-such-command-x9");
}

#[test]
fn test_copy_plan_windows() {
    let ctx = ClipboardContext { platform: Platform::Windows, wayland_display: false, wsl: false };
    let plan = copy_string(&ctx, "t");
    assert_eq!(plan.len(), 1);
    match &plan[0] {
        CopyAttempt::Run(c) => {
            assert_eq!(c.command, "clip");
            assert!(c.pipe_stderr);
            assert_eq!(c.stdin_text, "t");
        }
        CopyAttempt::EmitOsc52(_) => panic!("windows copies through clip"),
    }
}

#[test]
fn test_copy_plan_macos() {
    let ctx = ClipboardContext { platform: Platform::MacOs, wayland_display: false, wsl: false };
    let plan = copy_string(&ctx, "t");
    assert_eq!(plan.len(), 1);
    match &plan[0] {
        CopyAttempt::Run(c) => assert_eq!(c.command, "pbcopy"),
        CopyAttempt::EmitOsc52(_) => panic!("macos copies through pbcopy"),
    }
}

#[test]
fn test_copy_plan_wayland() {
    let ctx = ClipboardContext { platform: Platform::Unix, wayland_display: true, wsl: false };
    let plan = copy_string(&ctx, "abc");
    assert_eq!(plan.len(), 2);
    match &plan[0] {
        CopyAttempt::Run(c) => {
            assert_eq!(c.command, "wl-copy");
            assert!(!c.pipe_stderr);
        }
        CopyAttempt::EmitOsc52(_) => panic!("wayland tries wl-copy first"),
    }
    match &plan[1] {
        CopyAttempt::EmitOsc52(s) => assert_eq!(s, "\x1b]52;c;YWJj\x07"),
        CopyAttempt::Run(_) => panic!("the last wayland fallback is the escape sequence"),
    }
}

#[test]
fn test_copy_plan_wsl() {
    let ctx = ClipboardContext { platform: Platform::Unix, wayland_display: false, wsl: true };
    let plan = copy_string(&ctx, "t");
    assert_eq!(plan.len(), 1);
    match &plan[0] {
        CopyAttempt::Run(c) => assert_eq!(c.command, "clip.exe"),
        CopyAttempt::EmitOsc52(_) => panic!("wsl copies through clip.exe"),
    }
}

#[test]
fn test_copy_plan_x11() {
    let ctx = ClipboardContext { platform: Platform::Unix, wayland_display: false, wsl: false };
    let plan = copy_string(&ctx, "t");
    assert_eq!(plan.len(), 3);
    match &plan[0] {
        CopyAttempt::Run(c) => {
            assert_eq!(c.command, "xclip");
            assert_eq!(c.args, vec!["-selection", "clipboard"]);
            assert!(!c.pipe_stderr);
        }
        CopyAttempt::EmitOsc52(_) => panic!("x11 tries xclip first"),
    }
    match &plan[1] {
        CopyAttempt::Run(c) => {
            assert_eq!(c.command, "xsel");
            assert_eq!(c.args, vec!["--clipboard"]);
            assert!(c.pipe_stderr);
        }
        CopyAttempt::EmitOsc52(_) => panic!("x11 tries xsel second"),
    }
    assert!(matches!(&plan[2], CopyAttempt::EmitOsc52(_)));
}

#[test]
fn test_classify_copy_outcome() {
    assert!(classify_copy_outcome("xclip", true, "").is_ok());
    let e = classify_copy_outcome("xsel", false, "no display\n").unwrap_err();
    assert_eq!(e.command, "xsel");
    assert_eq!(e.stderr, "no display\n");
}
