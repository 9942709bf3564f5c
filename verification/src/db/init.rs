//! Where the database lives.
//!
//! The storage root is `$SLASHMEM_DIR` when set, else `~/.slashmem`. Inside it,
//! an explicit project name selects `projects/<name>/`, a detected git
//! repository selects `projects/<hash of its root>/`, and otherwise the root
//! itself is used. Reading the environment and the file system happens outside
//! this library; the choice and the paths are computed here.
use vstd::prelude::*;

use std::collections::hash_map::DefaultHasher;
use std::hash::Hasher;
use vstd::std_specs::hash::DefaultHasherAdditionalSpecFns;

use crate::text::{hex_fixed, lemma_hex_fixed_len, push_hex_fixed, strip_prefix};

verus! {

/// Name of the storage root under the home directory.
pub const DEFAULT_DIR_NAME: &'static str = ".slashmem";

/// File name of the SQLite database inside a storage directory.
pub const DB_FILENAME: &'static str = "mem.db";

/// Directory under the root that holds one directory per project.
pub const PROJECTS_DIR: &'static str = "projects";

/// File in a project directory that records the repository path it stands for.
pub const PROJECT_META: &'static str = "project.meta";

/// What pushing `name` onto the path `base` gives on Unix: an absolute `name`
/// replaces `base`; otherwise a separator is added unless `base` is empty or
/// already ends with one.
pub open spec fn spec_join(base: Seq<char>, name: Seq<char>) -> Seq<char> {
    if name.len() > 0 && name[0] == '/' {
        name
    } else if base.len() == 0 || base.last() == '/' {
        base + name
    } else {
        base + seq!['/'] + name
    }
}

/// Join a path and a further component, as `Path::join` does on Unix.
pub fn join_path(base: &str, name: &str) -> (p: String)
    ensures
        p@ == spec_join(base@, name@),
{
    proof {
        reveal_strlit("/");
    }
    let name_len = name.unicode_len();
    if name_len > 0 && name.get_char(0) == '/' {
        return String::from_str(name);
    }
    let base_len = base.unicode_len();
    if base_len == 0 || base.get_char(base_len - 1) == '/' {
        String::from_str(base).concat(name)
    } else {
        String::from_str(base).concat("/").concat(name)
    }
}

/// The storage root: `$SLASHMEM_DIR` when set, else `.slashmem` in the home
/// directory; `None` when neither is known.
pub open spec fn spec_global_root(env_dir: Option<Seq<char>>, home: Option<Seq<char>>) -> Option<Seq<char>> {
    match env_dir {
        Some(d) => Some(d),
        None => match home {
            Some(h) => Some(spec_join(h, DEFAULT_DIR_NAME@)),
            None => None,
        },
    }
}

/// The character sequence an optional string slice holds.
pub open spec fn opt_view(o: Option<&str>) -> Option<Seq<char>> {
    match o {
        Some(s) => Some(s@),
        None => None,
    }
}

/// The character sequence an optional string holds.
pub open spec fn opt_string_view(o: Option<String>) -> Option<Seq<char>> {
    match o {
        Some(s) => Some(s@),
        None => None,
    }
}

/// Return the storage root given `$SLASHMEM_DIR` and the home directory.
pub fn global_root(env_dir: Option<&str>, home: Option<&str>) -> (r: Option<String>)
    ensures
        opt_string_view(r) == spec_global_root(opt_view(env_dir), opt_view(home)),
{
    match env_dir {
        Some(d) => Some(String::from_str(d)),
        None => match home {
            Some(h) => Some(join_path(h, DEFAULT_DIR_NAME)),
            None => None,
        },
    }
}

/// The directory of the project `name` under the storage root.
pub open spec fn spec_project_dir(root: Seq<char>, name: Seq<char>) -> Seq<char> {
    spec_join(spec_join(root, PROJECTS_DIR@), name)
}

/// Return the directory of the project `name` under the storage root.
pub fn project_dir(root: &str, name: &str) -> (p: String)
    ensures
        p@ == spec_project_dir(root@, name@),
{
    let projects = join_path(root, PROJECTS_DIR);
    join_path(projects.as_str(), name)
}

/// What hashing the path `path` feeds into a `DefaultHasher`, as `Path`'s
/// `Hash` implementation writes it. That implementation ends with the length
/// written by `write_usize`, in the machine's own width and byte order, so
/// the writes (and the project hash built on them) are the same from run to
/// run on one platform, not across platforms.
pub uninterp spec fn path_hash_writes(path: Seq<char>) -> Seq<Seq<u8>>;

/// Calls `<std::path::Path as std::hash::Hash>::hash` on `path` with `state`.
/// What it writes is named, not described; it depends on the platform's
/// `usize` width and byte order (see [`path_hash_writes`]).
#[verifier::external_body]
fn hash_path_into(path: &str, state: &mut DefaultHasher)
    ensures
        final(state)@ == old(state)@ + path_hash_writes(path@),
{
    std::hash::Hash::hash(std::path::Path::new(path), state)
}

/// The stable short name of a project path: the 64-bit `DefaultHasher` hash
/// of the path, as 16 lowercase hexadecimal digits.
pub open spec fn spec_project_hash(path: Seq<char>) -> Seq<char> {
    hex_fixed(DefaultHasher::spec_finish(path_hash_writes(path)) as nat, 16)
}

/// Compute a stable short hash for a project path.
pub fn project_hash(path: &str) -> (h: String)
    ensures
        h@ == spec_project_hash(path@),
        h@.len() == 16,
{
    let mut hasher = DefaultHasher::new();
    hash_path_into(path, &mut hasher);
    assert(hasher@ =~= path_hash_writes(path@));
    let value = hasher.finish();
    let mut h = String::new();
    push_hex_fixed(&mut h, value, 16);
    proof {
        lemma_hex_fixed_len(value as nat, 16);
    }
    h
}

/// The storage directory, in order of precedence: `$SLASHMEM_DIR` as it is;
/// the named project's directory; the directory of the detected repository
/// root (by its hash); the storage root. `None` when neither `$SLASHMEM_DIR`
/// nor the home directory is known.
pub open spec fn spec_base_dir(
    env_dir: Option<Seq<char>>,
    home: Option<Seq<char>>,
    project: Option<Seq<char>>,
    git_root: Option<Seq<char>>,
) -> Option<Seq<char>> {
    match env_dir {
        Some(d) => Some(d),
        None => match home {
            None => None,
            Some(h) => {
                let root = spec_join(h, DEFAULT_DIR_NAME@);
                match project {
                    Some(name) => Some(spec_project_dir(root, name)),
                    None => match git_root {
                        Some(g) => Some(spec_project_dir(root, spec_project_hash(g))),
                        None => Some(root),
                    },
                }
            },
        },
    }
}

/// `$SLASHMEM_DIR`, when set, is the storage directory as it is, whatever
/// the home directory, the project name and the detected repository root.
pub proof fn lemma_env_dir_wins(
    d: Seq<char>,
    home: Option<Seq<char>>,
    project: Option<Seq<char>>,
    git_root: Option<Seq<char>>,
)
    ensures
        spec_base_dir(Some(d), home, project, git_root) == Some(d),
{
}

/// Without `$SLASHMEM_DIR`, an explicit project name chooses the project's
/// directory whatever repository was detected, and with neither a project
/// name nor a repository the storage root is used.
pub proof fn lemma_project_precedence(
    home: Seq<char>,
    name: Seq<char>,
    g1: Option<Seq<char>>,
    g2: Option<Seq<char>>,
)
    ensures
        spec_base_dir(None, Some(home), Some(name), g1) == spec_base_dir(None, Some(home), Some(name), g2),
        spec_base_dir(None, Some(home), None, None) == Some(spec_join(home, DEFAULT_DIR_NAME@)),
        spec_base_dir(None, None, Some(name), g1) is None,
{
}

/// Without `$SLASHMEM_DIR` or a project name, a detected repository root
/// chooses the directory of the project named by that root's hash.
pub proof fn lemma_git_root_names_project(home: Seq<char>, g: Seq<char>)
    ensures
        spec_base_dir(None, Some(home), None, Some(g)) == spec_base_dir(None, Some(home), Some(spec_project_hash(g)), None),
{
}

/// Return the storage directory from `$SLASHMEM_DIR`, the home directory,
/// an explicit project name and the detected repository root.
pub fn base_dir(
    env_dir: Option<&str>,
    home: Option<&str>,
    project: Option<&str>,
    git_root: Option<&str>,
) -> (r: Option<String>)
    ensures
        opt_string_view(r) == spec_base_dir(opt_view(env_dir), opt_view(home), opt_view(project), opt_view(git_root)),
{
    if let Some(d) = env_dir {
        return Some(String::from_str(d));
    }
    let root = match global_root(None, home) {
        Some(r) => r,
        None => return None,
    };
    if let Some(name) = project {
        return Some(project_dir(root.as_str(), name));
    }
    if let Some(g) = git_root {
        let hash = project_hash(g);
        return Some(project_dir(root.as_str(), hash.as_str()));
    }
    Some(root)
}

/// Returns the path to the SQLite database file in the storage directory.
pub fn db_path(base_dir: &str) -> (p: String)
    ensures
        p@ == spec_join(base_dir@, DB_FILENAME@),
{
    join_path(base_dir, DB_FILENAME)
}

/// Holds information about a known project.
#[derive(Debug, Clone, PartialEq)]
pub struct ProjectInfo {
    pub name: String,
    pub path: String,
    pub db_path: String,
}

/// Describe the project stored in directory `dir`, named `name`, whose
/// metadata file holds `meta` (the repository path).
pub fn project_info(dir: &str, name: String, meta: String) -> (info: ProjectInfo)
    ensures
        info.name@ == name@,
        info.path@ == meta@,
        info.db_path@ == spec_join(dir@, DB_FILENAME@),
{
    ProjectInfo { name, path: meta, db_path: db_path(dir) }
}

/// What the listing of the projects directory found at one entry.
pub struct ProjectEntry {
    /// The entry's path.
    pub dir: String,
    /// Whether it is a directory.
    pub is_dir: bool,
    /// Its final path component, where it has one.
    pub name: Option<String>,
    /// The contents of its metadata file, where that could be read.
    pub meta: Option<String>,
}

/// The text of `o`, or the empty text for `None`.
pub open spec fn text_or_empty(o: Option<String>) -> Seq<char> {
    match o {
        Some(s) => s@,
        None => Seq::empty(),
    }
}

/// A project's name, repository path and database path.
pub open spec fn info_view(p: ProjectInfo) -> (Seq<char>, Seq<char>, Seq<char>) {
    (p.name@, p.path@, p.db_path@)
}

/// The projects that the entries `es` describe, in order: one per entry that
/// is a directory, named by its final component and with the repository
/// path its metadata file holds (each empty when unknown), and the database
/// in that directory.
pub open spec fn spec_listing(es: Seq<ProjectEntry>) -> Seq<(Seq<char>, Seq<char>, Seq<char>)>
    decreases es.len(),
{
    if es.len() == 0 {
        Seq::empty()
    } else {
        let rest = spec_listing(es.drop_last());
        let e = es.last();
        if e.is_dir {
            rest.push((text_or_empty(e.name), text_or_empty(e.meta), spec_join(e.dir@, DB_FILENAME@)))
        } else {
            rest
        }
    }
}

/// Describe the projects that a listing of the projects directory found.
pub fn project_listing(entries: &Vec<ProjectEntry>) -> (ps: Vec<ProjectInfo>)
    ensures
        ps@.map_values(|p: ProjectInfo| info_view(p)) == spec_listing(entries@),
{
    let mut ps: Vec<ProjectInfo> = Vec::new();
    let mut i: usize = 0;
    while i < entries.len()
        invariant
            0 <= i <= entries@.len(),
            ps@.map_values(|p: ProjectInfo| info_view(p)) == spec_listing(entries@.take(i as int)),
        decreases entries@.len() - i,
    {
        assert(entries@.take(i + 1).drop_last() =~= entries@.take(i as int));
        let e = &entries[i];
        if e.is_dir {
            let name = match &e.name {
                Some(n) => n.clone(),
                None => String::new(),
            };
            let meta = match &e.meta {
                Some(m) => m.clone(),
                None => String::new(),
            };
            let info = project_info(e.dir.as_str(), name, meta);
            let ghost old_ps = ps@;
            ps.push(info);
            assert(ps@.map_values(|p: ProjectInfo| info_view(p)) =~= old_ps.map_values(|p: ProjectInfo| info_view(p)).push(info_view(info)));
        }
        i = i + 1;
    }
    assert(entries@.take(entries@.len() as int) =~= entries@);
    ps
}

/// What `str::trim` makes of `s`.
pub uninterp spec fn trimmed(s: Seq<char>) -> Seq<char>;

/// Calls `str::trim`: the result is `s` with leading and trailing Unicode
/// white space removed. Which characters count as white space is named, not
/// described.
#[verifier::external_body]
fn trim_text(s: &str) -> (t: String)
    ensures
        t@ == trimmed(s@),
{
    String::from(s.trim())
}

/// What `Path::parent` gives for the path `p`.
pub uninterp spec fn path_parent(p: Seq<char>) -> Option<Seq<char>>;

/// What `Path::file_name` gives for the path `p`.
pub uninterp spec fn path_file_name(p: Seq<char>) -> Option<Seq<char>>;

/// Calls `std::path::Path::parent`: the path without its final component, a
/// proper prefix of `p`; `None` for a root or an empty path.
#[verifier::external_body]
fn parent_of(p: &str) -> (r: Option<String>)
    ensures
        opt_string_view(r) == path_parent(p@),
        r matches Some(q) ==> q@.len() < p@.len(),
{
    match std::path::Path::new(p).parent() {
        Some(q) => Some(q.to_string_lossy().into_owned()),
        None => None,
    }
}

/// Calls `std::path::Path::file_name`: the final component of `p`, if it is a
/// normal component.
#[verifier::external_body]
fn file_name_of(p: &str) -> (r: Option<String>)
    ensures
        opt_string_view(r) == path_file_name(p@),
{
    match std::path::Path::new(p).file_name() {
        Some(n) => Some(n.to_string_lossy().into_owned()),
        None => None,
    }
}

/// Prefix of the line in a worktree's `.git` file that names its git directory.
pub const GITDIR_PREFIX: &'static str = "gitdir: ";

/// Where the git directory named `gitdir` in the worktree file `git_file`
/// lies: `gitdir` itself when it is absolute, else `gitdir` joined to the
/// directory that holds `git_file` (`None` when that file has no parent).
pub open spec fn spec_resolve_gitdir(gitdir: Seq<char>, git_file: Seq<char>) -> Option<Seq<char>> {
    if gitdir.len() > 0 && gitdir[0] == '/' {
        Some(gitdir)
    } else {
        match path_parent(git_file) {
            Some(dir) => Some(spec_join(dir, gitdir)),
            None => None,
        }
    }
}

/// The git directory that a worktree's `.git` file (at path `git_file`, with
/// contents `content`) points to: the text after `gitdir: `, trimmed, resolved
/// by [`spec_resolve_gitdir`].
pub open spec fn spec_worktree_gitdir(content: Seq<char>, git_file: Seq<char>) -> Option<Seq<char>> {
    if !GITDIR_PREFIX@.is_prefix_of(content) {
        None
    } else {
        spec_resolve_gitdir(trimmed(content.subrange(GITDIR_PREFIX@.len() as int, content.len() as int)), git_file)
    }
}

/// Resolve the (already trimmed) git directory `gitdir` named in the
/// worktree file `git_file`.
pub fn resolve_gitdir(gitdir: &str, git_file: &str) -> (r: Option<String>)
    ensures
        opt_string_view(r) == spec_resolve_gitdir(gitdir@, git_file@),
{
    let gitdir_len = gitdir.unicode_len();
    if gitdir_len > 0 && gitdir.get_char(0) == '/' {
        return Some(String::from_str(gitdir));
    }
    match parent_of(git_file) {
        Some(dir) => Some(join_path(dir.as_str(), gitdir)),
        None => None,
    }
}

/// Read the git directory named by a worktree's `.git` file.
pub fn worktree_gitdir(content: &str, git_file: &str) -> (r: Option<String>)
    ensures
        opt_string_view(r) == spec_worktree_gitdir(content@, git_file@),
{
    proof {
        reveal_strlit("gitdir: ");
    }
    let rest = match strip_prefix(content, GITDIR_PREFIX) {
        Some(rest) => rest,
        None => return None,
    };
    let gitdir = trim_text(rest.as_str());
    resolve_gitdir(gitdir.as_str(), git_file)
}

/// One step of the search for the repository that holds a directory.
#[derive(Debug, PartialEq)]
pub enum GitRootStep {
    /// The search ends at this repository root.
    Found(String),
    /// No `.git` here; go on with this parent directory.
    Up(String),
    /// No `.git` here and no parent: not inside a repository.
    NotFound,
}

/// The repository root found by searching from `dir`, given which
/// directories hold a `.git` entry (`git_exists`), which of those entries are
/// files (`git_is_file`), and the main repository root that such a worktree
/// file resolves to (`worktree_root`): the nearest directory, `dir` itself
/// first and then its ancestors, that holds a `.git` entry, or the resolved
/// root in its place when that entry is a worktree file that resolves;
/// `None` when no ancestor holds one.
pub open spec fn spec_git_root(
    dir: Seq<char>,
    git_exists: spec_fn(Seq<char>) -> bool,
    git_is_file: spec_fn(Seq<char>) -> bool,
    worktree_root: spec_fn(Seq<char>) -> Option<Seq<char>>,
) -> Option<Seq<char>>
    decreases dir.len(),
{
    if git_exists(dir) {
        if git_is_file(dir) && worktree_root(dir) is Some {
            worktree_root(dir)
        } else {
            Some(dir)
        }
    } else {
        match path_parent(dir) {
            Some(p) => if p.len() < dir.len() {
                spec_git_root(p, git_exists, git_is_file, worktree_root)
            } else {
                None
            },
            None => None,
        }
    }
}

/// A step `s` taken at `dir` keeps the search's answer `answer`: a found root
/// is that answer, moving up leads to a directory whose answer is the same,
/// and stopping means there is none.
pub open spec fn step_keeps(
    s: GitRootStep,
    answer: Option<Seq<char>>,
    git_exists: spec_fn(Seq<char>) -> bool,
    git_is_file: spec_fn(Seq<char>) -> bool,
    worktree_root: spec_fn(Seq<char>) -> Option<Seq<char>>,
) -> bool {
    match s {
        GitRootStep::Found(r) => answer == Some(r@),
        GitRootStep::Up(p) => spec_git_root(p@, git_exists, git_is_file, worktree_root) == answer,
        GitRootStep::NotFound => answer is None,
    }
}

/// Decide one step of the search at `dir`, given whether `dir/.git` exists,
/// whether it is a file (a worktree's pointer), and the main repository root
/// that such a file resolves to, if it does: that root; else `dir` itself
/// when `.git` exists; else move up to the parent of `dir`, if there is one.
pub fn git_root_step(dir: &str, git_exists: bool, git_is_file: bool, worktree_root: Option<String>) -> (s: GitRootStep)
    ensures
        git_exists && git_is_file && worktree_root is Some ==> s == GitRootStep::Found(worktree_root->0),
        git_exists && !(git_is_file && worktree_root is Some) ==> (s matches GitRootStep::Found(r) && r@ == dir@),
        !git_exists ==> match path_parent(dir@) {
            Some(p) => (s matches GitRootStep::Up(q) && q@ == p),
            None => s is NotFound,
        },
        forall|e: spec_fn(Seq<char>) -> bool, f: spec_fn(Seq<char>) -> bool, w: spec_fn(Seq<char>) -> Option<Seq<char>>|
            e(dir@) == git_exists && f(dir@) == git_is_file && w(dir@) == opt_string_view(worktree_root)
            ==> #[trigger] step_keeps(s, spec_git_root(dir@, e, f, w), e, f, w),
{
    if git_exists {
        if git_is_file {
            if let Some(root) = worktree_root {
                return GitRootStep::Found(root);
            }
        }
        return GitRootStep::Found(String::from_str(dir));
    }
    match parent_of(dir) {
        Some(p) => GitRootStep::Up(p),
        None => GitRootStep::NotFound,
    }
}

/// The repository root for a git directory such as
/// `<repo>/.git/worktrees/<name>`: the parent of the nearest ancestor (the
/// path itself included) whose final component is `.git`.
pub open spec fn spec_repo_root(p: Seq<char>) -> Option<Seq<char>>
    decreases p.len(),
{
    match path_file_name(p) {
        None => None,
        Some(name) => if name == ".git"@ {
            path_parent(p)
        } else {
            match path_parent(p) {
                Some(q) => if q.len() < p.len() { spec_repo_root(q) } else { None },
                None => None,
            }
        },
    }
}

/// Find the repository root for a (canonical) git directory path.
pub fn repo_root_of_gitdir(gitdir: &str) -> (r: Option<String>)
    ensures
        opt_string_view(r) == spec_repo_root(gitdir@),
{
    let mut ancestor = String::from_str(gitdir);
    let dot_git = String::from_str(".git");
    loop
        invariant
            spec_repo_root(ancestor@) == spec_repo_root(gitdir@),
            dot_git@ == ".git"@,
        decreases ancestor@.len(),
    {
        let name = match file_name_of(ancestor.as_str()) {
            Some(n) => n,
            None => return None,
        };
        if name == dot_git {
            return parent_of(ancestor.as_str());
        }
        ancestor = match parent_of(ancestor.as_str()) {
            Some(q) => q,
            None => return None,
        };
    }
}

} // verus!
