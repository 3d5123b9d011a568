//! Clipboard copy planning: which commands to try, in which order, and how
//! to judge their outcome.
//!
//! The plan depends on the platform and on two environment facts (a Wayland
//! display, a WSL kernel) that the caller probes; the escape-sequence
//! fallback is rendered here so a caller need only write it out.

use base64::engine::Engine;
use vstd::prelude::*;
use vstd::string::StringSliceAdditionalSpecFns;

use crate::paths::Platform;

verus! {

/// What `base64`'s standard-alphabet engine encodes the input bytes to: a
/// function of those bytes alone.
pub uninterp spec fn base64_standard(bytes: Seq<u8>) -> Seq<char>;

/// Relies on base64's `Engine::encode` with the standard padded alphabet.
#[verifier::external_body]
fn base64_encode(s: &str) -> (r: String)
    ensures
        r@ == base64_standard(s.spec_bytes()),
{
    base64::prelude::BASE64_STANDARD.encode(s)
}

/// Relies on `which::which`: the path of the first matching executable on
/// the search path, `None` when there is none (or the path is not Unicode).
#[verifier::external_body]
fn which_lookup(command: &str) -> Option<String> {
    which::which(command).ok().and_then(|p| p.to_str().map(|s| s.to_string()))
}

/// The OSC 52 escape sequence that copies `bytes` into the terminal's
/// clipboard selection.
pub open spec fn osc52_spec(bytes: Seq<u8>) -> Seq<char> {
    "\x1b]52;c;"@ + base64_standard(bytes) + "\x07"@
}

/// Renders the OSC 52 copy sequence for `text`: destination `c` (the
/// clipboard selection) and the base64-encoded payload, framed by the
/// escape introducer and the bell terminator.
pub fn copy_string_osc52(text: &str) -> (r: String)
    ensures
        r@ == osc52_spec(text.spec_bytes()),
{
    let mut r: String = String::new();
    r.append("\x1b]52;c;");
    let encoded: String = base64_encode(text);
    r.append(encoded.as_str());
    r.append("\x07");
    proof {
        assert(r@ =~= osc52_spec(text.spec_bytes()));
    }
    r
}

/// One planned copy-command launch: the requested command name, the binary
/// it resolved to on the search path (the name itself when nothing
/// resolved), the arguments, the text piped to its standard input, and
/// whether standard error is captured for diagnostics.
#[derive(Debug, Clone)]
pub struct CopyRequest {
    pub command: String,
    pub program: String,
    pub args: Vec<String>,
    pub stdin_text: String,
    pub pipe_stderr: bool,
}

/// The model of a planned copy command; the resolved binary is a search
/// outcome and not part of the model.
#[verifier::ext_equal]
pub ghost struct CopyModel {
    pub command: Seq<char>,
    pub args: Seq<Seq<char>>,
    pub stdin_text: Seq<char>,
    pub pipe_stderr: bool,
}

impl View for CopyRequest {
    type V = CopyModel;

    open spec fn view(&self) -> CopyModel {
        CopyModel {
            command: self.command@,
            args: crate::invoke::str_views(self.args@),
            stdin_text: self.stdin_text@,
            pipe_stderr: self.pipe_stderr,
        }
    }
}

/// Builds the launch plan for one copy command: the binary is looked up on
/// the search path, falling back to the bare name; arguments and text are
/// carried verbatim.
pub fn exec_copy_with_args(
    command: &str,
    args: &Vec<String>,
    text: &str,
    pipe_stderr: bool,
) -> (r: CopyRequest)
    ensures
        r@ == (CopyModel {
            command: command@,
            args: crate::invoke::str_views(args@),
            stdin_text: text@,
            pipe_stderr,
        }),
{
    let program: String = match which_lookup(command) {
        Some(p) => p,
        None => command.to_owned(),
    };
    let mut argv: Vec<String> = Vec::new();
    let mut i: usize = 0;
    while i < args.len()
        invariant
            i <= args@.len(),
            argv@.len() == i,
            forall|j: int| 0 <= j < i ==> argv@[j]@ == args@[j]@,
        decreases args@.len() - i,
    {
        argv.push(args[i].clone());
        i = i + 1;
    }
    let r = CopyRequest {
        command: command.to_owned(),
        program,
        args: argv,
        stdin_text: text.to_owned(),
        pipe_stderr,
    };
    proof {
        assert(r@.args =~= crate::invoke::str_views(args@));
        assert(r@ =~~= (CopyModel {
            command: command@,
            args: crate::invoke::str_views(args@),
            stdin_text: text@,
            pipe_stderr,
        }));
    }
    r
}

/// Plans one argument-less copy command with standard error captured.
pub fn exec_copy(command: &str, text: &str) -> (r: CopyRequest)
    ensures
        r@ == (CopyModel {
            command: command@,
            args: Seq::<Seq<char>>::empty(),
            stdin_text: text@,
            pipe_stderr: true,
        }),
{
    let args: Vec<String> = Vec::new();
    let r = exec_copy_with_args(command, &args, text, true);
    proof {
        assert(crate::invoke::str_views(args@) =~= Seq::<Seq<char>>::empty());
    }
    r
}

/// The environment facts the copy plan depends on: the platform, whether a
/// Wayland display is advertised, and whether the kernel reports WSL.
#[derive(Clone, Copy, PartialEq, Eq, Structural, Debug)]
pub struct ClipboardContext {
    pub platform: Platform,
    pub wayland_display: bool,
    pub wsl: bool,
}

/// One step of the copy plan: launch a command, or write the rendered
/// OSC 52 sequence to the terminal.
#[derive(Debug, Clone)]
pub enum CopyAttempt {
    Run(CopyRequest),
    EmitOsc52(String),
}

/// Plans the attempts for copying `text`, in order; the caller performs
/// each until one succeeds.
///
/// Windows uses `clip`, macOS `pbcopy`. Elsewhere a Wayland session tries
/// `wl-copy` and falls back to the escape sequence; a WSL kernel pipes to
/// `clip.exe`; an X session tries `xclip`, then `xsel`, then the escape
/// sequence.
pub fn copy_string(ctx: &ClipboardContext, text: &str) -> (r: Vec<CopyAttempt>)
    ensures
        ctx.platform is Windows ==> r@.len() == 1 && (r@[0] matches CopyAttempt::Run(c) && c@
            == (CopyModel {
            command: "clip"@,
            args: Seq::<Seq<char>>::empty(),
            stdin_text: text@,
            pipe_stderr: true,
        })),
        ctx.platform is MacOs ==> r@.len() == 1 && (r@[0] matches CopyAttempt::Run(c) && c@
            == (CopyModel {
            command: "pbcopy"@,
            args: Seq::<Seq<char>>::empty(),
            stdin_text: text@,
            pipe_stderr: true,
        })),
        ctx.platform is Unix && ctx.wayland_display ==> r@.len() == 2 && (r@[0] matches
            CopyAttempt::Run(c) && c@ == (CopyModel {
            command: "wl-copy"@,
            args: Seq::<Seq<char>>::empty(),
            stdin_text: text@,
            pipe_stderr: false,
        })) && (r@[1] matches CopyAttempt::EmitOsc52(s) && s@ == osc52_spec(text.spec_bytes())),
        ctx.platform is Unix && !ctx.wayland_display && ctx.wsl ==> r@.len() == 1 && (r@[0] matches
            CopyAttempt::Run(c) && c@ == (CopyModel {
            command: "clip.exe"@,
            args: Seq::<Seq<char>>::empty(),
            stdin_text: text@,
            pipe_stderr: false,
        })),
        ctx.platform is Unix && !ctx.wayland_display && !ctx.wsl ==> r@.len() == 3 && (r@[0] matches
            CopyAttempt::Run(c) && c@ == (CopyModel {
            command: "xclip"@,
            args: seq!["-selection"@, "clipboard"@],
            stdin_text: text@,
            pipe_stderr: false,
        })) && (r@[1] matches CopyAttempt::Run(c) && c@ == (CopyModel {
            command: "xsel"@,
            args: seq!["--clipboard"@],
            stdin_text: text@,
            pipe_stderr: true,
        })) && (r@[2] matches CopyAttempt::EmitOsc52(s) && s@ == osc52_spec(text.spec_bytes())),
{
    let mut r: Vec<CopyAttempt> = Vec::new();
    match ctx.platform {
        Platform::Windows => {
            let empty: Vec<String> = Vec::new();
            r.push(CopyAttempt::Run(exec_copy_with_args("clip", &empty, text, true)));
            proof {
                assert(crate::invoke::str_views(empty@) =~= Seq::<Seq<char>>::empty());
            }
        },
        Platform::MacOs => {
            let empty: Vec<String> = Vec::new();
            r.push(CopyAttempt::Run(exec_copy_with_args("pbcopy", &empty, text, true)));
            proof {
                assert(crate::invoke::str_views(empty@) =~= Seq::<Seq<char>>::empty());
            }
        },
        Platform::Unix => {
            if ctx.wayland_display {
                let empty: Vec<String> = Vec::new();
                r.push(CopyAttempt::Run(exec_copy_with_args("wl-copy", &empty, text, false)));
                r.push(CopyAttempt::EmitOsc52(copy_string_osc52(text)));
                proof {
                    assert(crate::invoke::str_views(empty@) =~= Seq::<Seq<char>>::empty());
                }
            } else if ctx.wsl {
                let empty: Vec<String> = Vec::new();
                r.push(CopyAttempt::Run(exec_copy_with_args("clip.exe", &empty, text, false)));
                proof {
                    assert(crate::invoke::str_views(empty@) =~= Seq::<Seq<char>>::empty());
                }
            } else {
                let mut xclip_args: Vec<String> = Vec::new();
                xclip_args.push("-selection".to_owned());
                xclip_args.push("clipboard".to_owned());
                r.push(CopyAttempt::Run(exec_copy_with_args("xclip", &xclip_args, text, false)));
                let mut xsel_args: Vec<String> = Vec::new();
                xsel_args.push("--clipboard".to_owned());
                r.push(CopyAttempt::Run(exec_copy_with_args("xsel", &xsel_args, text, true)));
                r.push(CopyAttempt::EmitOsc52(copy_string_osc52(text)));
                proof {
                    assert(crate::invoke::str_views(xclip_args@) =~= seq![
                        "-selection"@,
                        "clipboard"@,
                    ]);
                    assert(crate::invoke::str_views(xsel_args@) =~= seq!["--clipboard"@]);
                }
            }
        },
    }
    r
}

/// Why a performed copy command counts as failed.
#[derive(Debug, Clone, PartialEq, Eq)]
pub struct CopyError {
    /// The command that was asked for.
    pub command: String,
    /// What the command wrote to standard error (empty when it was not
    /// captured or stayed silent).
    pub stderr: String,
}

/// Judges a performed copy command: exit success is done; anything else is
/// an error naming the command and carrying its captured standard error.
pub fn classify_copy_outcome(command: &str, success: bool, stderr: &str) -> (r: Result<
    (),
    CopyError,
>)
    ensures
        success <==> r is Ok,
        r matches Err(e) ==> e.command@ == command@ && e.stderr@ == stderr@,
{
    if success {
        Ok(())
    } else {
        Err(CopyError { command: command.to_owned(), stderr: stderr.to_owned() })
    }
}

} // verus!
