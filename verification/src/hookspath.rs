//! Hook discovery: which script (if any) governs a hook name.
//!
//! `core.hooksPath` always takes precedence: if it is set and holds no script
//! of the wanted name, that is "no hook", not a reason to search elsewhere.
//! Only when it is unset does the search run over the repository's default
//! `hooks` directory followed by the caller-supplied fallback directories.
//!
//! The repository is consumed as a read-only capability through trusted
//! wrappers; every decision taken on what they return is verified, and the
//! pure resolution core [`HookPaths::resolve_given`] carries the exact
//! contract.

use vstd::prelude::*;

use crate::error::HooksError;
use crate::paths::{
    absolutize_spec, is_absolute_spec, join_path, join_spec, trim_slashes_spec,
    trim_trailing_slashes, Platform,
};

verus! {

/// A resolved hook location: the repository's metadata directory, the hook
/// script path (which may not exist), and the directory the hook must run in.
#[derive(Debug, Clone)]
pub struct HookPaths {
    pub git: String,
    pub hook: String,
    pub pwd: String,
}

/// What a filesystem probe of the hook script reported: presence, and the
/// Unix permission bits (meaningless under the Windows rules).
#[derive(Clone, Copy, PartialEq, Eq, Structural, Debug)]
pub struct FileStatus {
    pub exists: bool,
    pub unix_mode: u32,
}

/// Declares `git2::Repository`, the read-only repository capability, as an
/// opaque type.
#[verifier::external_type_specification]
#[verifier::external_body]
pub struct ExRepository(git2::Repository);

/// Declares `git2::Config`, a repository configuration snapshot, as an
/// opaque type.
#[verifier::external_type_specification]
#[verifier::external_body]
pub struct ExConfig(git2::Config);

/// Declares `git2::Error`, the error of a failed repository read, as an
/// opaque type.
#[verifier::external_type_specification]
#[verifier::external_body]
pub struct ExGitError(git2::Error);

/// Relies on `git2::Repository::workdir`: the worktree root of a non-bare
/// repository, `None` for a bare one. The inner `None` reports a root that is
/// not valid Unicode.
#[verifier::external_body]
fn repo_workdir(repo: &git2::Repository) -> Option<Option<String>> {
    repo.workdir().map(|p| p.to_str().map(|s| s.to_string()))
}

/// Relies on `git2::Repository::path`: the repository's metadata (`.git`)
/// directory. `None` reports a path that is not valid Unicode.
#[verifier::external_body]
fn repo_git_dir(repo: &git2::Repository) -> Option<String> {
    repo.path().to_str().map(|s| s.to_string())
}

/// Relies on `git2::Repository::config`: the repository's configuration
/// snapshot, or the library's error when the store cannot be read.
#[verifier::external_body]
fn repo_config(repo: &git2::Repository) -> Result<git2::Config, git2::Error> {
    repo.config()
}

/// Relies on `git2::Config::get_string`: the value of a configuration key;
/// any lookup failure (key absent, unreadable entry) is reported as `None`.
#[verifier::external_body]
fn config_get_string_opt(config: &git2::Config, name: &str) -> Option<String> {
    config.get_string(name).ok()
}

/// Relies on `std::path::Path::exists`: whether the path points at an
/// existing filesystem entity at the time of the call.
#[verifier::external_body]
fn path_exists(p: &str) -> bool {
    std::path::Path::new(p).exists()
}

/// No character of `s` starts a tilde or environment-variable construct.
pub open spec fn no_expansion_chars(s: Seq<char>) -> bool {
    forall|i: int| 0 <= i < s.len() ==> s[i] != '~' && s[i] != '$'
}

/// Relies on `shellexpand::full`: `~` and `$VAR` constructs are substituted;
/// a string holding neither kind of construct is returned unchanged, and an
/// unresolvable variable reference is the only failure.
#[verifier::external_body]
fn expand_full(s: &str) -> (r: Result<String, HooksError>)
    ensures
        r matches Ok(o) ==> no_expansion_chars(s@) ==> o@ == s@,
        r is Err ==> !no_expansion_chars(s@),
        r matches Err(e) ==> e == HooksError::Expand,
{
    match shellexpand::full(s) {
        Ok(expanded) => Ok(expanded.into_owned()),
        Err(_) => Err(HooksError::Expand),
    }
}

/// The directory hooks run in: the worktree root where one exists, else the
/// metadata directory (the bare-repository rule).
pub open spec fn working_dir_spec(workdir: Option<Seq<char>>, git_dir: Seq<char>) -> Seq<char> {
    match workdir {
        Some(w) => w,
        None => git_dir,
    }
}

/// The search directories when `core.hooksPath` is unset: the default hooks
/// directory first, then each fallback in caller order, trailing `/` trimmed.
pub open spec fn candidates_spec(other: Option<Seq<Seq<char>>>) -> Seq<Seq<char>> {
    seq!["hooks"@] + match other {
        Some(o) => o.map_values(|d: Seq<char>| trim_slashes_spec(d)),
        None => Seq::<Seq<char>>::empty(),
    }
}

/// The views of an optional fallback-directory list.
pub open spec fn other_views(o: Option<&Vec<String>>) -> Option<Seq<Seq<char>>> {
    match o {
        Some(v) => Some(v@.map_values(|s: String| s@)),
        None => None,
    }
}

/// The first of `files` whose probe answered true, if any.
pub open spec fn first_existing(files: Seq<Seq<char>>, e: Seq<bool>) -> Option<Seq<char>>
    decreases files.len(),
{
    if files.len() == 0 || e.len() == 0 {
        None
    } else if e[0] {
        Some(files[0])
    } else {
        first_existing(files.drop_first(), e.drop_first())
    }
}

/// The candidate script path inside one search directory.
pub open spec fn candidate_file_spec(
    p: Platform,
    git_dir: Seq<char>,
    dir: Seq<char>,
    hook: Seq<char>,
) -> Seq<char> {
    join_spec(p, join_spec(p, git_dir, dir), hook)
}

/// The search outcome: the first existing candidate, else the default hooks
/// directory joined with the hook name (a non-existent path).
pub open spec fn resolve_search_spec(
    p: Platform,
    git_dir: Seq<char>,
    dirs: Seq<Seq<char>>,
    hook: Seq<char>,
    e: Seq<bool>,
) -> Seq<char> {
    match first_existing(
        dirs.map_values(|d: Seq<char>| candidate_file_spec(p, git_dir, d, hook)),
        e,
    ) {
        Some(f) => f,
        None => candidate_file_spec(p, git_dir, "hooks"@, hook),
    }
}

/// The resolved hook path: a configured (already expanded) `core.hooksPath`
/// target wins outright; otherwise the search outcome.
pub open spec fn resolved_hook_spec(
    p: Platform,
    pwd: Seq<char>,
    git_dir: Seq<char>,
    expanded_config: Option<Seq<char>>,
    dirs: Seq<Seq<char>>,
    hook: Seq<char>,
    e: Seq<bool>,
) -> Seq<char> {
    match expanded_config {
        Some(c) => absolutize_spec(p, c, pwd),
        None => resolve_search_spec(p, git_dir, dirs, hook, e),
    }
}

/// Whether the platform treats the probed file as executable: on Unix at
/// least one execute permission bit, on Windows every present file.
pub open spec fn is_executable_spec(p: Platform, status: FileStatus) -> bool {
    if crate::paths::is_windows(p) {
        true
    } else {
        status.exists && status.unix_mode & 0o111 != 0
    }
}

/// A hook counts as found when its file exists and the platform treats it
/// as executable.
pub open spec fn found_spec(p: Platform, status: FileStatus) -> bool {
    status.exists && is_executable_spec(p, status)
}

/// Decides executability of the probed hook script under the platform rules.
pub fn is_executable(p: Platform, status: &FileStatus) -> (r: bool)
    ensures
        r == is_executable_spec(p, *status),
{
    if p.is_windows() {
        true
    } else {
        status.exists && status.unix_mode & 0o111 != 0
    }
}

/// Expands shell constructs in `path` and, where the expansion is relative,
/// resolves it against `pwd` — never against the metadata directory: git's
/// rule makes a relative `core.hooksPath` relative to the directory hooks
/// run from.
pub fn expand_path(p: Platform, path: &str, pwd: &str) -> (r: Result<String, HooksError>)
    ensures
        no_expansion_chars(path@) ==> (r matches Ok(h) && h@ == absolutize_spec(p, path@, pwd@)),
        r matches Ok(h) ==> exists|ex: Seq<char>| h@ == absolutize_spec(p, ex, pwd@),
        r matches Err(e) ==> e == HooksError::Expand,
{
    match expand_full(path) {
        Ok(expanded) => {
            let h: String = crate::paths::absolutize(p, &expanded, pwd);
            proof {
                assert(h@ == absolutize_spec(p, expanded@, pwd@));
            }
            Ok(h)
        },
        Err(e) => Err(e),
    }
}

/// The configured `core.hooksPath` value, `None` when the key is absent or
/// unreadable; only a failure to open the configuration store itself is an
/// error.
fn config_hook_path(repo: &git2::Repository) -> (r: Result<Option<String>, HooksError>)
    ensures
        r matches Err(e) ==> e == HooksError::Git,
{
    match repo_config(repo) {
        Ok(config) => Ok(config_get_string_opt(&config, "core.hooksPath")),
        Err(_) => Err(HooksError::Git),
    }
}

/// Builds the search directory list: `hooks` first, then each fallback with
/// its trailing `/` trimmed.
pub fn candidate_dirs(other_paths: Option<&Vec<String>>) -> (r: Vec<String>)
    ensures
        r@.map_values(|s: String| s@) == candidates_spec(other_views(other_paths)),
{
    let mut dirs: Vec<String> = Vec::new();
    dirs.push("hooks".to_owned());
    match other_paths {
        Some(others) => {
            let mut i: usize = 0;
            while i < others.len()
                invariant
                    i <= others@.len(),
                    dirs@.len() == 1 + i,
                    dirs@[0]@ == "hooks"@,
                    forall|j: int|
                        0 <= j < i ==> dirs@[j + 1]@ == trim_slashes_spec(others@[j]@),
                decreases others@.len() - i,
            {
                dirs.push(trim_trailing_slashes(others[i].as_str()));
                i = i + 1;
            }
            proof {
                assert(dirs@.map_values(|s: String| s@) =~= candidates_spec(
                    other_views(other_paths),
                ));
            }
        },
        None => {
            proof {
                assert(dirs@.map_values(|s: String| s@) =~= candidates_spec(
                    other_views(other_paths),
                ));
            }
        },
    }
    dirs
}

/// Picks the first search directory whose probe answered true, falling back
/// to the default hooks directory's (non-existent) candidate.
pub fn select_first_existing(
    p: Platform,
    git_dir: &str,
    dirs: &Vec<String>,
    hook: &str,
    exists: &Vec<bool>,
) -> (r: String)
    requires
        dirs@.len() == exists@.len(),
    ensures
        r@ == resolve_search_spec(
            p,
            git_dir@,
            dirs@.map_values(|s: String| s@),
            hook@,
            exists@,
        ),
{
    let ghost dir_views: Seq<Seq<char>> = dirs@.map_values(|s: String| s@);
    let ghost files: Seq<Seq<char>> = dir_views.map_values(
        |d: Seq<char>| candidate_file_spec(p, git_dir@, d, hook@),
    );
    let mut i: usize = 0;
    proof {
        assert(files.skip(0) =~= files);
        assert(exists@.skip(0) =~= exists@);
    }
    while i < dirs.len()
        invariant
            i <= dirs@.len(),
            dirs@.len() == exists@.len(),
            dir_views == dirs@.map_values(|s: String| s@),
            files == dir_views.map_values(
                |d: Seq<char>| candidate_file_spec(p, git_dir@, d, hook@),
            ),
            first_existing(files, exists@) == first_existing(
                files.skip(i as int),
                exists@.skip(i as int),
            ),
        decreases dirs@.len() - i,
    {
        if exists[i] {
            let in_dir: String = join_path(p, git_dir, dirs[i].as_str());
            let file: String = join_path(p, in_dir.as_str(), hook);
            proof {
                assert(files.skip(i as int)[0] == files[i as int]);
                assert(exists@.skip(i as int)[0] == exists@[i as int]);
                assert(first_existing(files.skip(i as int), exists@.skip(i as int)) == Some(
                    files[i as int],
                ));
            }
            return file;
        }
        proof {
            assert(files.skip(i as int).drop_first() =~= files.skip(i + 1));
            assert(exists@.skip(i as int).drop_first() =~= exists@.skip(i + 1));
        }
        i = i + 1;
    }
    proof {
        assert(first_existing(files.skip(i as int), exists@.skip(i as int)) is None);
    }
    let in_default: String = join_path(p, git_dir, "hooks");
    join_path(p, in_default.as_str(), hook)
}

/// Probes the default hooks directory and each fallback for the hook and
/// returns the first hit, else the default (non-existent) candidate path.
pub fn find_hook(
    p: Platform,
    git_dir: &str,
    other_paths: Option<&Vec<String>>,
    hook: &str,
) -> (r: String)
    ensures
        exists|e: Seq<bool>|
            e.len() == candidates_spec(other_views(other_paths)).len() && r@
                == resolve_search_spec(
                p,
                git_dir@,
                candidates_spec(other_views(other_paths)),
                hook@,
                e,
            ),
{
    let dirs: Vec<String> = candidate_dirs(other_paths);
    let mut flags: Vec<bool> = Vec::new();
    let mut i: usize = 0;
    while i < dirs.len()
        invariant
            i <= dirs@.len(),
            flags@.len() == i,
        decreases dirs@.len() - i,
    {
        let in_dir: String = join_path(p, git_dir, dirs[i].as_str());
        let file: String = join_path(p, in_dir.as_str(), hook);
        flags.push(path_exists(file.as_str()));
        i = i + 1;
    }
    let r: String = select_first_existing(p, git_dir, &dirs, hook, &flags);
    proof {
        assert(r@ == resolve_search_spec(
            p,
            git_dir@,
            candidates_spec(other_views(other_paths)),
            hook@,
            flags@,
        ));
    }
    r
}

/// One witnessed account of a resolution result: repository facts `wd`,
/// configured target `cfg` and probe answers `e` under which `hp` is what
/// the resolution rules yield.
pub open spec fn models_resolution(
    p: Platform,
    dirs: Seq<Seq<char>>,
    hook: Seq<char>,
    hp: HookPaths,
    wd: Option<Seq<char>>,
    cfg: Option<Seq<char>>,
    e: Seq<bool>,
) -> bool {
    e.len() == dirs.len() && hp.pwd@ == working_dir_spec(wd, hp.git@) && hp.hook@
        == resolved_hook_spec(p, hp.pwd@, hp.git@, cfg, dirs, hook, e)
}

/// `hp` is a result the resolution rules can yield for this request, under
/// some repository facts, configured target and probe answers.
pub open spec fn resolution_modeled(
    p: Platform,
    other_paths: Option<&Vec<String>>,
    hook: Seq<char>,
    hp: HookPaths,
) -> bool {
    exists|wd: Option<Seq<char>>, cfg: Option<Seq<char>>, e: Seq<bool>|
        models_resolution(p, candidates_spec(other_views(other_paths)), hook, hp, wd, cfg, e)
}

impl HookPaths {
    /// Pure resolution core: given the worktree root, the metadata directory,
    /// the already-expanded `core.hooksPath` target (if configured), the
    /// fallback directories and the existence answers for each candidate,
    /// yields the governing hook location.
    pub fn resolve_given(
        p: Platform,
        workdir: Option<&String>,
        git_dir: &String,
        expanded_config: Option<&String>,
        other_paths: Option<&Vec<String>>,
        hook: &str,
        exists: &Vec<bool>,
    ) -> (r: HookPaths)
        requires
            expanded_config is None ==> exists@.len() == candidates_spec(
                other_views(other_paths),
            ).len(),
        ensures
            r.git@ == git_dir@,
            r.pwd@ == working_dir_spec(
                match workdir {
                    Some(w) => Some(w@),
                    None => None,
                },
                git_dir@,
            ),
            r.hook@ == resolved_hook_spec(
                p,
                r.pwd@,
                git_dir@,
                match expanded_config {
                    Some(c) => Some(c@),
                    None => None,
                },
                candidates_spec(other_views(other_paths)),
                hook@,
                exists@,
            ),
    {
        let pwd: String = match workdir {
            Some(w) => w.clone(),
            None => git_dir.clone(),
        };
        let hook_path: String = match expanded_config {
            Some(c) => crate::paths::absolutize(p, c.as_str(), pwd.as_str()),
            None => {
                let dirs: Vec<String> = candidate_dirs(other_paths);
                select_first_existing(p, git_dir.as_str(), &dirs, hook, exists)
            },
        };
        HookPaths { git: git_dir.clone(), hook: hook_path, pwd }
    }

    /// Resolves the governing hook location for `hook` in `repo`.
    ///
    /// `core.hooksPath`, where set, is expanded, resolved against the
    /// directory hooks run from when relative, and used without any search;
    /// otherwise the default hooks directory and then each of `other_paths`
    /// is probed, and the first hit (or the default, non-existent, candidate)
    /// is returned. The repository reads and the filesystem probes reach the
    /// outside through trusted wrappers; [`Self::resolve_given`] carries the
    /// exact contract for every answer they can give.
    pub fn new(
        p: Platform,
        repo: &git2::Repository,
        other_paths: Option<&Vec<String>>,
        hook: &str,
    ) -> (r: Result<HookPaths, HooksError>)
        ensures
            r matches Ok(hp) ==> resolution_modeled(p, other_paths, hook@, hp),
            r matches Err(e) ==> (e == HooksError::PathToString || e == HooksError::Expand
                || e == HooksError::Git),
    {
        let git_dir: String = match repo_git_dir(repo) {
            Some(g) => g,
            None => {
                return Err(HooksError::PathToString);
            },
        };
        let workdir: Option<String> = match repo_workdir(repo) {
            None => None,
            Some(Some(w)) => Some(w),
            Some(None) => {
                return Err(HooksError::PathToString);
            },
        };
        let config_path: Option<String> = match config_hook_path(repo) {
            Ok(c) => c,
            Err(e) => {
                return Err(e);
            },
        };
        let pwd: String = match &workdir {
            Some(w) => w.clone(),
            None => git_dir.clone(),
        };
        let ghost wd_witness: Option<Seq<char>> = match workdir {
            Some(w) => Some(w@),
            None => None,
        };
        let ghost dirs: Seq<Seq<char>> = candidates_spec(other_views(other_paths));
        match config_path {
            Some(config) => {
                let joined: String = join_path(p, config.as_str(), hook);
                let expanded: String = match expand_path(p, joined.as_str(), pwd.as_str()) {
                    Ok(h) => h,
                    Err(e) => {
                        return Err(e);
                    },
                };
                let ghost pwd_view: Seq<char> = pwd@;
                let r = HookPaths { git: git_dir, hook: expanded, pwd };
                proof {
                    let ex = choose|ex: Seq<char>| expanded@ == absolutize_spec(p, ex, pwd_view);
                    let e_witness = Seq::new(dirs.len(), |i: int| false);
                    assert(models_resolution(p, dirs, hook@, r, wd_witness, Some(ex), e_witness));
                    assert(resolution_modeled(p, other_paths, hook@, r));
                }
                Ok(r)
            },
            None => {
                let hook_path: String = find_hook(p, git_dir.as_str(), other_paths, hook);
                let r = HookPaths { git: git_dir, hook: hook_path, pwd };
                proof {
                    let e_witness = choose|e: Seq<bool>|
                        e.len() == dirs.len() && r.hook@ == resolve_search_spec(
                            p,
                            r.git@,
                            dirs,
                            hook@,
                            e,
                        );
                    assert(models_resolution(
                        p,
                        dirs,
                        hook@,
                        r,
                        wd_witness,
                        None::<Seq<char>>,
                        e_witness,
                    ));
                    assert(resolution_modeled(p, other_paths, hook@, r));
                }
                Ok(r)
            },
        }
    }

    /// Law: a configured hooks path takes precedence. The resolved hook is
    /// its expanded target resolved against the working directory, the same
    /// under every set of filesystem answers: the search directories are
    /// never consulted, even when the target holds no such hook.
    pub proof fn lemma_configured_path_takes_precedence(
        p: Platform,
        pwd: Seq<char>,
        git_dir: Seq<char>,
        c: Seq<char>,
        dirs: Seq<Seq<char>>,
        hook: Seq<char>,
        e1: Seq<bool>,
        e2: Seq<bool>,
    )
        ensures
            resolved_hook_spec(p, pwd, git_dir, Some(c), dirs, hook, e1) == absolutize_spec(
                p,
                c,
                pwd,
            ),
            resolved_hook_spec(p, pwd, git_dir, Some(c), dirs, hook, e1) == resolved_hook_spec(
                p,
                pwd,
                git_dir,
                Some(c),
                dirs,
                hook,
                e2,
            ),
    {
    }

    /// Law: a relative configured hooks path resolves against the worktree
    /// root of a non-bare repository, never against the metadata directory.
    pub proof fn lemma_relative_config_resolves_against_worktree(
        p: Platform,
        worktree: Seq<char>,
        git_dir: Seq<char>,
        c: Seq<char>,
    )
        requires
            !is_absolute_spec(p, c),
        ensures
            absolutize_spec(p, c, working_dir_spec(Some(worktree), git_dir)) == join_spec(
                p,
                worktree,
                c,
            ),
    {
    }

    /// Law: with no configured hooks path, a hook present in the default
    /// hooks directory is chosen over one present in any caller-supplied
    /// fallback directory, regardless of the fallbacks and their order.
    pub proof fn lemma_default_dir_first(
        p: Platform,
        git_dir: Seq<char>,
        others: Seq<Seq<char>>,
        hook: Seq<char>,
        e: Seq<bool>,
    )
        requires
            e.len() == candidates_spec(Some(others)).len(),
            e[0],
        ensures
            resolve_search_spec(p, git_dir, candidates_spec(Some(others)), hook, e)
                == candidate_file_spec(p, git_dir, "hooks"@, hook),
    {
        let dirs = candidates_spec(Some(others));
        let files = dirs.map_values(|d: Seq<char>| candidate_file_spec(p, git_dir, d, hook));
        assert(dirs[0] == "hooks"@);
        assert(files[0] == candidate_file_spec(p, git_dir, "hooks"@, hook));
        assert(first_existing(files, e) == Some(files[0]));
    }

    /// Was a hook file found, and is it executable under the platform rules.
    pub fn found(&self, p: Platform, status: &FileStatus) -> (r: bool)
        ensures
            r == found_spec(p, *status),
    {
        status.exists && is_executable(p, status)
    }
}

/// A found hook is one of the probed candidate files.
proof fn lemma_first_existing_member(files: Seq<Seq<char>>, e: Seq<bool>)
    ensures
        first_existing(files, e) matches Some(f) ==> exists|i: int|
            0 <= i < files.len() && f == files[i],
    decreases files.len(),
{
    if files.len() == 0 || e.len() == 0 {
    } else if e[0] {
        assert(first_existing(files, e) == Some(files[0]));
    } else {
        lemma_first_existing_member(files.drop_first(), e.drop_first());
        if first_existing(files, e) is Some {
            let f = first_existing(files, e)->Some_0;
            let j = choose|j: int|
                0 <= j < files.drop_first().len() && f == files.drop_first()[j];
            assert(f == files[j + 1]);
        }
    }
}

/// Joining a relative component onto an absolute base stays absolute.
proof fn lemma_join_preserves_absolute(p: Platform, base: Seq<char>, rel: Seq<char>)
    requires
        is_absolute_spec(p, base),
    ensures
        is_absolute_spec(p, join_spec(p, base, rel)),
{
    let r = join_spec(p, base, rel);
    if crate::paths::is_windows(p) {
        assert(r[0] == base[0] && r[1] == base[1]);
        if base.len() >= 3 {
            assert(r[2] == base[2]);
        }
    } else {
        assert(r[0] == base[0]);
    }
}

/// Law: resolution yields an absolute hook path whenever the repository
/// reported absolute directories — no invocation is ever planned against a
/// relative path.
pub proof fn lemma_resolved_hook_absolute(
    p: Platform,
    pwd: Seq<char>,
    git_dir: Seq<char>,
    expanded_config: Option<Seq<char>>,
    dirs: Seq<Seq<char>>,
    hook: Seq<char>,
    e: Seq<bool>,
)
    requires
        is_absolute_spec(p, pwd),
        is_absolute_spec(p, git_dir),
    ensures
        is_absolute_spec(p, resolved_hook_spec(p, pwd, git_dir, expanded_config, dirs, hook, e)),
{
    match expanded_config {
        Some(c) => {
            if !is_absolute_spec(p, c) {
                lemma_join_preserves_absolute(p, pwd, c);
            }
        },
        None => {
            let files = dirs.map_values(|d: Seq<char>| candidate_file_spec(p, git_dir, d, hook));
            match first_existing(files, e) {
                Some(f) => {
                    lemma_first_existing_member(files, e);
                    let i = choose|i: int| 0 <= i < files.len() && f == files[i];
                    assert(f == candidate_file_spec(p, git_dir, dirs[i], hook));
                    lemma_join_preserves_absolute(p, git_dir, dirs[i]);
                    lemma_join_preserves_absolute(p, join_spec(p, git_dir, dirs[i]), hook);
                },
                None => {
                    lemma_join_preserves_absolute(p, git_dir, "hooks"@);
                    lemma_join_preserves_absolute(p, join_spec(p, git_dir, "hooks"@), hook);
                },
            }
        },
    }
}

} // verus!
