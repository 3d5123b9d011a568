//! A plain-string model of filesystem paths.
//!
//! Paths are carried as `String`s and reasoned about as `Seq<char>`. The
//! platform is a value, not a compile-time condition: every function that
//! depends on separator or absoluteness rules takes a [`Platform`] descriptor.

use vstd::prelude::*;

verus! {

/// The operating-system family a resolution or invocation is made for.
///
/// The invocation strategy and the path rules are selected by this value at
/// the call site; `MacOs` follows the Unix rules everywhere but in the
/// clipboard command table.
#[derive(Clone, Copy, PartialEq, Eq, Structural, Debug)]
pub enum Platform {
    Unix,
    MacOs,
    Windows,
}

impl Platform {
    /// Whether the Windows strategy (shell invocation, `\` separators) applies.
    pub fn is_windows(&self) -> (r: bool)
        ensures
            r == is_windows(*self),
    {
        match self {
            Platform::Windows => true,
            _ => false,
        }
    }
}

pub open spec fn is_windows(p: Platform) -> bool {
    p is Windows
}

/// The separator this platform's path joins insert.
pub open spec fn sep_char(p: Platform) -> char {
    if is_windows(p) {
        '\\'
    } else {
        '/'
    }
}

/// Whether `c` separates components on platform `p`.
pub open spec fn is_sep(p: Platform, c: char) -> bool {
    c == '/' || (is_windows(p) && c == '\\')
}

pub open spec fn is_drive_letter(c: char) -> bool {
    ('a' as u32) <= (c as u32) <= ('z' as u32) || ('A' as u32) <= (c as u32) <= ('Z' as u32)
}

/// The model of `Path::is_absolute`: on Unix a leading `/`; on Windows a
/// drive prefix (`C:\` or `C:/`) or a UNC prefix (`\\`).
pub open spec fn is_absolute_spec(p: Platform, s: Seq<char>) -> bool {
    if is_windows(p) {
        (s.len() >= 3 && is_drive_letter(s[0]) && s[1] == ':' && is_sep(p, s[2])) || (s.len() >= 2
            && s[0] == '\\' && s[1] == '\\')
    } else {
        s.len() >= 1 && s[0] == '/'
    }
}

/// The model of `Path::join` for a non-absolute `rel`: `base` and `rel` glued
/// with one separator, inserted only where `base` does not already end in one.
pub open spec fn join_spec(p: Platform, base: Seq<char>, rel: Seq<char>) -> Seq<char> {
    if base.len() == 0 {
        rel
    } else if is_sep(p, base[base.len() - 1]) {
        base + rel
    } else {
        base + seq![sep_char(p)] + rel
    }
}

/// `s` with every trailing `/` removed, as `str::trim_end_matches('/')` does.
pub open spec fn trim_slashes_spec(s: Seq<char>) -> Seq<char>
    decreases s.len(),
{
    if s.len() > 0 && s[s.len() - 1] == '/' {
        trim_slashes_spec(s.drop_last())
    } else {
        s
    }
}

/// Decides absoluteness of `s` under this platform's rules.
pub fn is_absolute_path(p: Platform, s: &str) -> (r: bool)
    ensures
        r == is_absolute_spec(p, s@),
{
    let n: usize = s.unicode_len();
    if p.is_windows() {
        if n >= 2 && s.get_char(0) == '\\' && s.get_char(1) == '\\' {
            return true;
        }
        if n >= 3 {
            let c0: char = s.get_char(0);
            let u0: u32 = c0 as u32;
            let drive: bool = (97 <= u0 && u0 <= 122) || (65 <= u0 && u0 <= 90);
            let c2: char = s.get_char(2);
            return drive && s.get_char(1) == ':' && (c2 == '/' || c2 == '\\');
        }
        false
    } else {
        n >= 1 && s.get_char(0) == '/'
    }
}

/// Joins `rel` onto `base` with the platform's separator.
pub fn join_path(p: Platform, base: &str, rel: &str) -> (r: String)
    ensures
        r@ == join_spec(p, base@, rel@),
{
    let n: usize = base.unicode_len();
    if n == 0 {
        return rel.to_owned();
    }
    let last: char = base.get_char(n - 1);
    let needs_sep: bool = !(last == '/' || (p.is_windows() && last == '\\'));
    let mut r: String = base.to_owned();
    if needs_sep {
        if p.is_windows() {
            proof {
                reveal_strlit("\\");
            }
            r.append("\\");
        } else {
            proof {
                reveal_strlit("/");
            }
            r.append("/");
        }
        proof {
            assert(r@ =~= base@ + seq![sep_char(p)]);
        }
    }
    r.append(rel);
    proof {
        if needs_sep {
            assert(r@ =~= base@ + seq![sep_char(p)] + rel@);
        } else {
            assert(r@ =~= base@ + rel@);
        }
    }
    r
}

/// `s` itself where absolute, else `s` resolved against `pwd`.
pub open spec fn absolutize_spec(p: Platform, s: Seq<char>, pwd: Seq<char>) -> Seq<char> {
    if is_absolute_spec(p, s) {
        s
    } else {
        join_spec(p, pwd, s)
    }
}

/// Resolves `s` against `pwd` unless it is already absolute.
pub fn absolutize(p: Platform, s: &str, pwd: &str) -> (r: String)
    ensures
        r@ == absolutize_spec(p, s@, pwd@),
{
    if is_absolute_path(p, s) {
        s.to_owned()
    } else {
        join_path(p, pwd, s)
    }
}

/// Removes every trailing `/` from `s`.
pub fn trim_trailing_slashes(s: &str) -> (r: String)
    ensures
        r@ == trim_slashes_spec(s@),
{
    let n: usize = s.unicode_len();
    let mut k: usize = n;
    proof {
        assert(s@.subrange(0, n as int) =~= s@);
    }
    while k > 0 && s.get_char(k - 1) == '/'
        invariant
            k <= n,
            n == s@.len(),
            trim_slashes_spec(s@) == trim_slashes_spec(s@.subrange(0, k as int)),
        decreases k,
    {
        proof {
            assert(s@.subrange(0, k as int).drop_last() =~= s@.subrange(0, k - 1));
        }
        k = k - 1;
    }
    let r: &str = s.substring_char(0, k);
    proof {
        if k > 0 {
            assert(!(s@.subrange(0, k as int)[k - 1] == '/'));
        }
        assert(trim_slashes_spec(s@.subrange(0, k as int)) == s@.subrange(0, k as int));
    }
    r.to_owned()
}

} // verus!
