//! Hook invocation: planning the child process and classifying its outcome.
//!
//! The engine never spawns a process itself; it decides. A caller asks for
//! the first launch attempt ([`HookPaths::first_command`]), performs it, and
//! on a launch failure asks whether the single documented retry applies
//! ([`HookPaths::retry_command`]: the exec-format-error fallback through the
//! POSIX shell). The finished process's captured output is classified by
//! [`HookPaths::run_hook`] into the [`HookResult`] taxonomy.
//!
//! On Windows the hook always runs through a shell, with the hook path
//! single-quoted; the quoting is proved to survive a re-read under the
//! shell's own quoting rules.

use vstd::prelude::*;

use crate::hookspath::HookPaths;
use crate::paths::{is_windows, Platform};

verus! {

/// The operating-system error code for the exec format error: the kernel
/// rejected the file as a non-executable binary format.
pub const ENOEXEC: i32 = 8;

/// The characters that stand for one quoted `'`: the quote is closed, an
/// escaped quote is emitted outside quotes, and a new quote is opened.
pub open spec fn quoted_quote() -> Seq<char> {
    seq!['\'', '\\', '\'', '\'']
}

/// The body of the single-quoted form of `s`: every character literal, each
/// embedded `'` replaced by its escaped form.
pub open spec fn sh_quote_body(s: Seq<char>) -> Seq<char>
    decreases s.len(),
{
    if s.len() == 0 {
        Seq::<char>::empty()
    } else {
        (if s[0] == '\'' {
            quoted_quote()
        } else {
            seq![s[0]]
        }) + sh_quote_body(s.drop_first())
    }
}

/// The single-quoted form of `s`, as handed to the shell.
pub open spec fn sh_quote_spec(s: Seq<char>) -> Seq<char> {
    seq!['\''] + sh_quote_body(s) + seq!['\'']
}

/// One word as a POSIX shell reads it: inside single quotes every character
/// up to the closing quote is literal; outside, `'` opens a quoted run, `\`
/// makes the next character literal, and anything else stands for itself.
/// `None` is an unterminated quote or a trailing escape.
pub open spec fn shell_read_word(s: Seq<char>, in_quote: bool) -> Option<Seq<char>>
    decreases s.len(),
{
    if s.len() == 0 {
        if in_quote {
            None
        } else {
            Some(Seq::<char>::empty())
        }
    } else if in_quote {
        if s[0] == '\'' {
            shell_read_word(s.drop_first(), false)
        } else {
            match shell_read_word(s.drop_first(), true) {
                Some(r) => Some(seq![s[0]] + r),
                None => None,
            }
        }
    } else {
        if s[0] == '\'' {
            shell_read_word(s.drop_first(), true)
        } else if s[0] == '\\' {
            if s.len() >= 2 {
                match shell_read_word(s.skip(2), false) {
                    Some(r) => Some(seq![s[1]] + r),
                    None => None,
                }
            } else {
                None
            }
        } else {
            match shell_read_word(s.drop_first(), false) {
                Some(r) => Some(seq![s[0]] + r),
                None => None,
            }
        }
    }
}

/// Reading a quoted body followed by the closing quote continues as reading
/// the remainder outside quotes, with the body's characters recovered.
proof fn lemma_quote_body_parses(s: Seq<char>, t: Seq<char>)
    ensures
        shell_read_word(sh_quote_body(s) + seq!['\''] + t, true) == (match shell_read_word(
            t,
            false,
        ) {
            Some(r) => Some(s + r),
            None => None::<Seq<char>>,
        }),
    decreases s.len(),
{
    let w = sh_quote_body(s) + seq!['\''] + t;
    if s.len() == 0 {
        assert(w =~= seq!['\''] + t);
        assert(w.drop_first() =~= t);
        match shell_read_word(t, false) {
            Some(r) => {
                assert(s + r =~= r);
            },
            None => {},
        }
    } else if s[0] != '\'' {
        let u = sh_quote_body(s.drop_first()) + seq!['\''] + t;
        assert(w =~= seq![s[0]] + u);
        assert(w[0] == s[0]);
        assert(w.drop_first() =~= u);
        lemma_quote_body_parses(s.drop_first(), t);
        match shell_read_word(t, false) {
            Some(r) => {
                assert(shell_read_word(u, true) == Some(s.drop_first() + r));
                assert(seq![s[0]] + (s.drop_first() + r) =~= s + r);
            },
            None => {},
        }
    } else {
        let u = sh_quote_body(s.drop_first()) + seq!['\''] + t;
        assert(w =~= quoted_quote() + u);
        // step 1: the closing quote leaves quoted mode
        assert(w[0] == '\'');
        let w1 = w.drop_first();
        assert(w1 =~= seq!['\\', '\'', '\''] + u);
        // step 2: the backslash escapes one quote character
        assert(w1[0] == '\\' && w1.len() >= 2 && w1[1] == '\'');
        let w2 = w1.skip(2);
        assert(w2 =~= seq!['\''] + u);
        // step 3: the new quote re-enters quoted mode over the rest
        assert(w2[0] == '\'');
        assert(w2.drop_first() =~= u);
        lemma_quote_body_parses(s.drop_first(), t);
        match shell_read_word(t, false) {
            Some(r) => {
                assert(shell_read_word(u, true) == Some(s.drop_first() + r));
                assert(shell_read_word(w2, false) == Some(s.drop_first() + r));
                assert(shell_read_word(w1, false) == Some(
                    seq!['\''] + (s.drop_first() + r),
                ));
                assert(seq!['\''] + (s.drop_first() + r) =~= s + r);
            },
            None => {
                assert(shell_read_word(u, true) is None);
                assert(shell_read_word(w2, false) is None);
                assert(shell_read_word(w1, false) is None);
            },
        }
    }
}

/// Law (shell-escaping idempotence): a path quoted for the shell strategy,
/// re-read under the shell's quoting rules, is exactly the original path —
/// embedded single quotes included.
pub proof fn lemma_sh_quote_round_trip(s: Seq<char>)
    ensures
        shell_read_word(sh_quote_spec(s), false) == Some(s),
{
    let q = sh_quote_spec(s);
    assert(q[0] == '\'');
    assert(q.drop_first() =~= sh_quote_body(s) + seq!['\''] + Seq::<char>::empty());
    lemma_quote_body_parses(s, Seq::<char>::empty());
    assert(shell_read_word(Seq::<char>::empty(), false) == Some(Seq::<char>::empty()));
    assert(s + Seq::<char>::empty() =~= s);
}

/// Appending one character extends the quoted body by that character's form.
proof fn lemma_quote_body_snoc(s: Seq<char>, c: char)
    ensures
        sh_quote_body(s.push(c)) == sh_quote_body(s) + (if c == '\'' {
            quoted_quote()
        } else {
            seq![c]
        }),
    decreases s.len(),
{
    let tail = if c == '\'' {
        quoted_quote()
    } else {
        seq![c]
    };
    if s.len() == 0 {
        assert(s.push(c)[0] == c);
        assert(s.push(c).drop_first() =~= Seq::<char>::empty());
        assert(sh_quote_body(s.push(c).drop_first()) =~= Seq::<char>::empty());
        assert(sh_quote_body(s.push(c)) =~= tail);
        assert(sh_quote_body(s) + tail =~= tail);
    } else {
        assert(s.push(c)[0] == s[0]);
        assert(s.push(c).drop_first() =~= s.drop_first().push(c));
        lemma_quote_body_snoc(s.drop_first(), c);
        let head = if s[0] == '\'' {
            quoted_quote()
        } else {
            seq![s[0]]
        };
        assert(sh_quote_body(s.push(c)) == head + (sh_quote_body(s.drop_first()) + tail));
        assert(head + (sh_quote_body(s.drop_first()) + tail) =~= (head + sh_quote_body(
            s.drop_first(),
        )) + tail);
    }
}

/// Single-quotes `s` for the shell: each embedded `'` is escaped by closing
/// the quote, emitting `\'` and reopening it.
pub fn sh_quote(s: &str) -> (r: String)
    ensures
        r@ == sh_quote_spec(s@),
{
    let n: usize = s.unicode_len();
    let mut r: String = String::new();
    proof {
        reveal_strlit("'");
        reveal_strlit("'\\''");
        assert("'\\''"@ =~= quoted_quote());
    }
    r.append("'");
    let mut i: usize = 0;
    proof {
        assert(s@.subrange(0, 0) =~= Seq::<char>::empty());
        assert(r@ =~= seq!['\''] + sh_quote_body(s@.subrange(0, 0)));
    }
    while i < n
        invariant
            i <= n,
            n == s@.len(),
            r@ == seq!['\''] + sh_quote_body(s@.subrange(0, i as int)),
        decreases n - i,
    {
        let c: char = s.get_char(i);
        if c == '\'' {
            proof {
                reveal_strlit("'\\''");
            }
            r.append("'\\''");
        } else {
            let piece: &str = s.substring_char(i, i + 1);
            proof {
                assert(piece@ =~= seq![s@[i as int]]);
            }
            r.append(piece);
        }
        proof {
            lemma_quote_body_snoc(s@.subrange(0, i as int), c);
            assert(s@.subrange(0, i + 1) =~= s@.subrange(0, i as int).push(s@[i as int]));
            assert(r@ =~= seq!['\''] + sh_quote_body(s@.subrange(0, i + 1)));
        }
        i = i + 1;
    }
    proof {
        reveal_strlit("'");
        assert(s@.subrange(0, n as int) =~= s@);
    }
    r.append("'");
    proof {
        assert(r@ =~= sh_quote_spec(s@));
    }
    r
}

/// The views of a list of argument strings.
pub open spec fn str_views(v: Seq<String>) -> Seq<Seq<char>> {
    v.map_values(|s: String| s@)
}

/// A planned child-process launch: program, argument vector, working
/// directory, and whether a visible console window must be suppressed.
#[derive(Debug, Clone)]
pub struct CommandSpec {
    pub program: String,
    pub args: Vec<String>,
    pub current_dir: String,
    pub suppress_console: bool,
}

/// The mathematical model of a planned launch.
#[verifier::ext_equal]
pub ghost struct CommandModel {
    pub program: Seq<char>,
    pub args: Seq<Seq<char>>,
    pub current_dir: Seq<char>,
    pub suppress_console: bool,
}

impl View for CommandSpec {
    type V = CommandModel;

    open spec fn view(&self) -> CommandModel {
        CommandModel {
            program: self.program@,
            args: str_views(self.args@),
            current_dir: self.current_dir@,
            suppress_console: self.suppress_console,
        }
    }
}

/// The non-Windows first attempt: the hook itself as the process image.
pub open spec fn direct_command_spec(
    hook: Seq<char>,
    pwd: Seq<char>,
    args: Seq<Seq<char>>,
) -> CommandModel {
    CommandModel { program: hook, args: args, current_dir: pwd, suppress_console: false }
}

/// The non-Windows retry after an exec format error: the POSIX shell with
/// the hook as its script argument.
pub open spec fn shell_fallback_spec(
    shell: Seq<char>,
    hook: Seq<char>,
    pwd: Seq<char>,
    args: Seq<Seq<char>>,
) -> CommandModel {
    CommandModel {
        program: shell,
        args: seq![hook] + args,
        current_dir: pwd,
        suppress_console: false,
    }
}

/// The Windows strategy: a login shell runs a command line holding the
/// single-quoted hook path followed by a literal `"$@"`, with the hook path
/// as `$0` and the arguments forwarded verbatim; no console window appears.
pub open spec fn windows_command_spec(
    shell: Seq<char>,
    hook: Seq<char>,
    pwd: Seq<char>,
    args: Seq<Seq<char>>,
) -> CommandModel {
    CommandModel {
        program: shell,
        args: seq!["-l"@, "-c"@, sh_quote_spec(hook) + " \"$@\""@, hook] + args,
        current_dir: pwd,
        suppress_console: true,
    }
}

/// What a finished child process reported: exit success, the numeric exit
/// code (absent when terminated by a signal), and the captured streams
/// decoded as best-effort text.
#[derive(Debug, Clone, PartialEq, Eq)]
pub struct ProcessOutput {
    pub success: bool,
    pub code: Option<i32>,
    pub stdout: String,
    pub stderr: String,
}

/// The outcome of one hook invocation, constructed once and never mutated.
#[derive(Debug, Clone, PartialEq, Eq)]
pub enum HookResult {
    /// The hook ran and exited successfully.
    RanOk { hook: String },
    /// No hook of the wanted name was found: treated as success.
    NoHookFound,
    /// The hook ran and failed, or was terminated by a signal.
    RunNotSuccessful { code: Option<i32>, stdout: String, stderr: String, hook: String },
}

/// The classification of a finished hook process: exit success is `RanOk`;
/// anything else carries the exit code (absent for a signal termination) and
/// both captured streams, exactly as the process produced them.
pub open spec fn classify_spec(hook: String, output: ProcessOutput) -> HookResult {
    if output.success {
        HookResult::RanOk { hook }
    } else {
        HookResult::RunNotSuccessful {
            code: output.code,
            stdout: output.stdout,
            stderr: output.stderr,
            hook,
        }
    }
}

impl HookPaths {
    /// Decides whether this hook runs at all: an absent (or, on Unix, a
    /// non-executable) script is "no hook", and the outcome is settled
    /// without any launch; `None` means the hook must be run.
    pub fn outcome_if_missing(
        &self,
        p: Platform,
        status: &crate::hookspath::FileStatus,
    ) -> (r: Option<HookResult>)
        ensures
            crate::hookspath::found_spec(p, *status) ==> r is None,
            !crate::hookspath::found_spec(p, *status) ==> r == Some(HookResult::NoHookFound),
    {
        if self.found(p, status) {
            None
        } else {
            Some(HookResult::NoHookFound)
        }
    }

    /// The first launch attempt for this hook under the platform strategy:
    /// direct execution on Unix, always through the shell on Windows.
    pub fn first_command(&self, p: Platform, shell: &str, args: &Vec<String>) -> (r: CommandSpec)
        ensures
            is_windows(p) ==> r@ == windows_command_spec(shell@, self.hook@, self.pwd@, str_views(args@)),
            !is_windows(p) ==> r@ == direct_command_spec(self.hook@, self.pwd@, str_views(args@)),
    {
        if p.is_windows() {
            let mut argv: Vec<String> = Vec::new();
            argv.push("-l".to_owned());
            argv.push("-c".to_owned());
            let quoted: String = sh_quote(self.hook.as_str());
            proof {
                reveal_strlit(" \"$@\"");
            }
            let command_line: String = quoted.concat(" \"$@\"");
            argv.push(command_line);
            argv.push(self.hook.clone());
            let mut i: usize = 0;
            while i < args.len()
                invariant
                    i <= args@.len(),
                    argv@.len() == 4 + i,
                    argv@[0]@ == "-l"@,
                    argv@[1]@ == "-c"@,
                    argv@[2]@ == sh_quote_spec(self.hook@) + " \"$@\""@,
                    argv@[3]@ == self.hook@,
                    forall|j: int| 0 <= j < i ==> argv@[4 + j]@ == args@[j]@,
                decreases args@.len() - i,
            {
                argv.push(args[i].clone());
                i = i + 1;
            }
            let r = CommandSpec {
                program: shell.to_owned(),
                args: argv,
                current_dir: self.pwd.clone(),
                suppress_console: true,
            };
            proof {
                assert(r@.args =~= seq![
                    "-l"@,
                    "-c"@,
                    sh_quote_spec(self.hook@) + " \"$@\""@,
                    self.hook@,
                ] + str_views(args@));
                assert(r@ =~~= windows_command_spec(shell@, self.hook@, self.pwd@, str_views(args@)));
            }
            r
        } else {
            let mut argv: Vec<String> = Vec::new();
            let mut i: usize = 0;
            while i < args.len()
                invariant
                    i <= args@.len(),
                    argv@.len() == i,
                    forall|j: int| 0 <= j < i ==> argv@[j]@ == args@[j]@,
                decreases args@.len() - i,
            {
                argv.push(args[i].clone());
                i = i + 1;
            }
            let r = CommandSpec {
                program: self.hook.clone(),
                args: argv,
                current_dir: self.pwd.clone(),
                suppress_console: false,
            };
            proof {
                assert(r@.args =~= str_views(args@));
                assert(r@ =~~= direct_command_spec(self.hook@, self.pwd@, str_views(args@)));
            }
            r
        }
    }

    /// The single documented retry: only a non-Windows launch rejected with
    /// the exec format error is re-run through the POSIX shell; every other
    /// launch failure is surfaced unchanged.
    pub fn retry_command(
        &self,
        p: Platform,
        shell: &str,
        args: &Vec<String>,
        launch_error_code: Option<i32>,
    ) -> (r: Option<CommandSpec>)
        ensures
            (!is_windows(p) && launch_error_code == Some(ENOEXEC)) <==> r is Some,
            r matches Some(c) ==> c@ == shell_fallback_spec(
                shell@,
                self.hook@,
                self.pwd@,
                str_views(args@),
            ),
    {
        if p.is_windows() {
            return None;
        }
        match launch_error_code {
            Some(code) if code == ENOEXEC => {
                let mut argv: Vec<String> = Vec::new();
                argv.push(self.hook.clone());
                let mut i: usize = 0;
                while i < args.len()
                    invariant
                        i <= args@.len(),
                        argv@.len() == 1 + i,
                        argv@[0]@ == self.hook@,
                        forall|j: int| 0 <= j < i ==> argv@[1 + j]@ == args@[j]@,
                    decreases args@.len() - i,
                {
                    argv.push(args[i].clone());
                    i = i + 1;
                }
                let r = CommandSpec {
                    program: shell.to_owned(),
                    args: argv,
                    current_dir: self.pwd.clone(),
                    suppress_console: false,
                };
                proof {
                    assert(r@.args =~= seq![self.hook@] + str_views(args@));
                    assert(r@ =~~= shell_fallback_spec(shell@, self.hook@, self.pwd@, str_views(args@)));
                }
                Some(r)
            },
            _ => None,
        }
    }

    /// Classifies a finished hook process: exit success is `Ok`, anything
    /// else carries the exit code (absent for a signal) and both captured
    /// streams, exactly as the process produced them.
    pub fn run_hook(&self, output: &ProcessOutput) -> (r: HookResult)
        ensures
            r == classify_spec(self.hook, *output),
    {
        if output.success {
            HookResult::RanOk { hook: self.hook.clone() }
        } else {
            HookResult::RunNotSuccessful {
                code: output.code,
                stdout: output.stdout.clone(),
                stderr: output.stderr.clone(),
                hook: self.hook.clone(),
            }
        }
    }
}

/// Law (working directory): every planned launch runs the hook from the
/// resolved working directory — the worktree root of a non-bare repository,
/// the metadata directory of a bare one — under every strategy.
pub proof fn lemma_invocation_uses_working_dir(
    shell: Seq<char>,
    hook: Seq<char>,
    pwd: Seq<char>,
    args: Seq<Seq<char>>,
)
    ensures
        direct_command_spec(hook, pwd, args).current_dir == pwd,
        shell_fallback_spec(shell, hook, pwd, args).current_dir == pwd,
        windows_command_spec(shell, hook, pwd, args).current_dir == pwd,
{
}

} // verus!
