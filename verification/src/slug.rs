//! The slug by which a repository is known: given by a flag or a variable, or
//! derived from the URL of its `origin` remote.
//!
//! The URL is asked of `jj` or `git`. Finding the slug is a task: it names what to
//! ask, [`SlugTask::current`], and is resumed with the reply.

use vstd::prelude::*;
use vstd::string::*;

use crate::compose::{cat3, cat4, views};
use crate::encoding::{lossy, lossy_text};
use crate::pathname::{below_text, PathName};
use crate::paths::{opt_bytes, own_slug_of, own_slug_value, OWN_SLUG_ENV};
use crate::text::{
    after_first, after_last, after_marker, after_white, before_first, before_white,
    cut_after_first, cut_after_last, cut_after_marker, cut_before_first, same_text, split_white,
    strip_suffix, stripped_suffix, trim, trim_end_of, trimmed, trimmed_end_of,
};
use vstd::utf8::*;

verus! {

broadcast use vstd::seq_lib::group_seq_properties;

// --- URLs ----------------------------------------------------------------------

/// `s` without a `.git` at its end.
pub open spec fn without_git(s: Seq<char>) -> Seq<char> {
    match stripped_suffix(s, ".git"@) {
        Some(t) => t,
        None => s,
    }
}

/// `s`, unless it is empty.
pub open spec fn nonempty(s: Seq<char>) -> Option<Seq<char>> {
    if s.len() == 0 {
        None
    } else {
        Some(s)
    }
}

/// The path in a URL: in `scheme://host/path` what follows the first `/` behind
/// the host, in `host:path` what follows the first `:`, else all of it.
pub open spec fn url_path(url: Seq<char>) -> Option<Seq<char>> {
    match after_marker(url, "://"@) {
        Some(rest) => after_first(rest, "/"@),
        None => match after_first(url, ":"@) {
            Some(path) => Some(path),
            None => Some(url),
        },
    }
}

/// The slug that a client takes from a URL: what follows the last `/` or `:`,
/// without `.git`. A URL without a path has none.
pub open spec fn origin_slug(url: Seq<char>) -> Option<Seq<char>> {
    match url_path(trimmed(url)) {
        Some(_) => nonempty(without_git(after_last(trimmed(url), "/:"@))),
        None => None,
    }
}

/// The slug that a server takes from a URL: the last segment of its path, without
/// query, fragment, slashes at the end and `.git`.
pub open spec fn repo_slug(url: Seq<char>) -> Option<Seq<char>> {
    match url_path(trimmed(url)) {
        Some(path) => {
            let bare = trimmed_end_of(before_first(path, "?#"@), "/"@);
            nonempty(without_git(trimmed(after_last(bare, "/"@))))
        },
        None => None,
    }
}

/// The path in a URL.
fn cut_path(url: &str) -> (r: Option<&str>)
    ensures
        match r {
            Some(path) => url_path(url@) == Some(path@),
            None => url_path(url@) is None,
        },
{
    match cut_after_marker(url, "://") {
        Some(rest) => cut_after_first(rest, "/"),
        None => match cut_after_first(url, ":") {
            Some(path) => Some(path),
            None => Some(url),
        },
    }
}

/// `s` without a `.git` at its end, unless that is empty.
fn finish_slug(s: &str) -> (r: Option<String>)
    ensures
        match r {
            Some(t) => nonempty(without_git(s@)) == Some(t@),
            None => nonempty(without_git(s@)) is None,
        },
{
    let t: &str = match strip_suffix(s, ".git") {
        Some(t) => t,
        None => s,
    };
    if t.is_empty() {
        None
    } else {
        Some(t.to_owned())
    }
}

/// The slug that a client takes from a URL.
pub fn parse_origin_url(url: &str) -> (r: Option<String>)
    ensures
        match r {
            Some(s) => origin_slug(url@) == Some(s@),
            None => origin_slug(url@) is None,
        },
{
    let url: &str = trim(url);
    match cut_path(url) {
        Some(_) => finish_slug(cut_after_last(url, "/:")),
        None => None,
    }
}

/// The slug that a server takes from a URL.
pub fn parse_slug(url: &str) -> (r: Option<String>)
    ensures
        match r {
            Some(s) => repo_slug(url@) == Some(s@),
            None => repo_slug(url@) is None,
        },
{
    match cut_path(trim(url)) {
        Some(path) => {
            let bare: &str = trim_end_of(cut_before_first(path, "?#"), "/");
            finish_slug(trim(cut_after_last(bare, "/")))
        },
        None => None,
    }
}

// --- what jj and git say -------------------------------------------------------

/// The URL in a line `<name> <url>`, when the name is `origin`. A client takes the
/// second word.
pub open spec fn client_line(line: Seq<char>) -> Option<Seq<char>> {
    let words = trimmed(line);
    let url = before_white(trimmed(after_white(words)));
    if before_white(words) == "origin"@ && url.len() > 0 {
        Some(url)
    } else {
        None
    }
}

/// The URL in a line `<name> <url>`, when the name is `origin`. A server takes all
/// that follows the name.
pub open spec fn server_line(line: Seq<char>) -> Option<Seq<char>> {
    let url = trimmed(after_white(line));
    if trimmed(before_white(line)) == "origin"@ && url.len() > 0 {
        Some(url)
    } else {
        None
    }
}

/// Who looks for the slug.
#[derive(Debug, Clone, Copy, PartialEq, Eq)]
pub enum Role {
    Client,
    Server,
}

/// The URL of `origin` in a list of remotes, one to a line.
pub open spec fn listed_origin(role: Role, list: Seq<char>) -> Option<Seq<char>>
    decreases list.len(),
{
    let line = before_first(list, "\n"@);
    let here = match role {
        Role::Client => client_line(line),
        Role::Server => server_line(line),
    };
    match here {
        Some(url) => Some(url),
        None => match after_first(list, "\n"@) {
            Some(rest) => if rest.len() < list.len() {
                listed_origin(role, rest)
            } else {
                None
            },
            None => None,
        },
    }
}

/// The URL in a line of a list of remotes.
fn read_line(role: Role, line: &str) -> (r: Option<String>)
    ensures
        match r {
            Some(url) => (match role {
                Role::Client => client_line(line@),
                Role::Server => server_line(line@),
            }) == Some(url@),
            None => (match role {
                Role::Client => client_line(line@),
                Role::Server => server_line(line@),
            }) is None,
        },
{
    match role {
        Role::Client => {
            let (name, rest): (&str, &str) = split_white(trim(line));
            let (url, _): (&str, &str) = split_white(trim(rest));
            if same_text(name, "origin") && !url.is_empty() {
                Some(url.to_owned())
            } else {
                None
            }
        },
        Role::Server => {
            let (name, rest): (&str, &str) = split_white(line);
            let url: &str = trim(rest);
            if same_text(trim(name), "origin") && !url.is_empty() {
                Some(url.to_owned())
            } else {
                None
            }
        },
    }
}

/// The URL of `origin` in a list of remotes, one to a line.
pub fn find_origin(role: Role, list: &str) -> (r: Option<String>)
    ensures
        match r {
            Some(url) => listed_origin(role, list@) == Some(url@),
            None => listed_origin(role, list@) is None,
        },
    decreases list@.len(),
{
    if let Some(url) = read_line(role, cut_before_first(list, "\n")) {
        return Some(url);
    }
    match cut_after_first(list, "\n") {
        Some(rest) => find_origin(role, rest),
        None => None,
    }
}

// --- the task ------------------------------------------------------------------

/// The failure when a client finds no slug.
pub const NO_REMOTE: &'static str = "cannot determine repo slug from git remote";

/// The failure of a blank flag.
pub const BLANK_FLAG: &'static str = "--slug must be a non-empty string";

/// How far the search has come.
#[derive(Debug, PartialEq, Eq)]
pub enum SlugPhase {
    /// Is there a `.jj` directory?
    ProbeJj,
    /// Asking `jj` for the remotes.
    AskJj,
    /// Asking `git` for the remote.
    AskGit,
    /// The result is known.
    Finished(Result<String, String>),
}

/// The contents of [`SlugPhase`].
#[verifier::ext_equal]
pub enum SlugPhaseView {
    ProbeJj,
    AskJj,
    AskGit,
    Finished(Result<Seq<char>, Seq<char>>),
}

/// A slug or a failure, in characters.
pub open spec fn slug_view(r: Result<String, String>) -> Result<Seq<char>, Seq<char>> {
    match r {
        Ok(s) => Ok(s@),
        Err(e) => Err(e@),
    }
}

impl View for SlugPhase {
    type V = SlugPhaseView;

    open spec fn view(&self) -> SlugPhaseView {
        match self {
            SlugPhase::ProbeJj => SlugPhaseView::ProbeJj,
            SlugPhase::AskJj => SlugPhaseView::AskJj,
            SlugPhase::AskGit => SlugPhaseView::AskGit,
            SlugPhase::Finished(r) => SlugPhaseView::Finished(slug_view(*r)),
        }
    }
}

/// A search under way.
#[derive(Debug, PartialEq, Eq)]
pub struct SlugTask {
    role: Role,
    repo: PathName,
    /// True when a flag was given that is blank.
    blank: bool,
    phase: SlugPhase,
}

/// The contents of [`SlugTask`].
#[verifier::ext_equal]
pub struct SlugTaskView {
    pub role: Role,
    pub repo: Seq<u8>,
    pub blank: bool,
    pub phase: SlugPhaseView,
}

impl View for SlugTask {
    type V = SlugTaskView;

    closed spec fn view(&self) -> SlugTaskView {
        SlugTaskView {
            role: self.role,
            repo: self.repo@,
            blank: self.blank,
            phase: self.phase@,
        }
    }
}

/// What the search asks for.
#[derive(Debug, PartialEq, Eq)]
pub enum SlugAction {
    /// Is there a directory? Answered with `Answer`.
    IsDir(PathName),
    /// Runs a program. Answered with `Ran`.
    Run { program: String, args: Vec<PathName> },
    /// Nothing more: this is the result.
    Return(Result<String, String>),
}

/// The contents of [`SlugAction`].
#[verifier::ext_equal]
pub enum SlugActionView {
    IsDir(Seq<u8>),
    Run { program: Seq<char>, args: Seq<Seq<u8>> },
    Return(Result<Seq<char>, Seq<char>>),
}

impl View for SlugAction {
    type V = SlugActionView;

    open spec fn view(&self) -> SlugActionView {
        match self {
            SlugAction::IsDir(p) => SlugActionView::IsDir(p@),
            SlugAction::Run { program, args } => SlugActionView::Run {
                program: program@,
                args: views(args@),
            },
            SlugAction::Return(r) => SlugActionView::Return(slug_view(*r)),
        }
    }
}

/// What came of an action.
#[derive(Debug, PartialEq, Eq)]
pub enum SlugReply {
    Answer(bool),
    /// The program ran and ended, with success or not.
    Ran { success: bool, stdout: Vec<u8> },
    /// The program could not be run; the failure in words.
    Failed(String),
}

/// The contents of [`SlugReply`].
#[verifier::ext_equal]
pub enum SlugReplyView {
    Answer(bool),
    Ran { success: bool, stdout: Seq<u8> },
    Failed(Seq<char>),
}

impl View for SlugReply {
    type V = SlugReplyView;

    open spec fn view(&self) -> SlugReplyView {
        match self {
            SlugReply::Answer(b) => SlugReplyView::Answer(*b),
            SlugReply::Ran { success, stdout } => SlugReplyView::Ran {
                success: *success,
                stdout: stdout@,
            },
            SlugReply::Failed(e) => SlugReplyView::Failed(e@),
        }
    }
}

/// The arguments with which `jj` lists the remotes.
pub open spec fn jj_args(role: Role, repo: Seq<u8>) -> Seq<Seq<u8>> {
    seq![
        match role {
            Role::Client => encode_utf8("--repository"@),
            Role::Server => encode_utf8("-R"@),
        },
        repo,
        encode_utf8("git"@),
        encode_utf8("remote"@),
        encode_utf8("list"@),
    ]
}

/// The arguments with which `git` says the remote.
pub open spec fn git_args(repo: Seq<u8>) -> Seq<Seq<u8>> {
    seq![
        encode_utf8("-C"@),
        repo,
        encode_utf8("remote"@),
        encode_utf8("get-url"@),
        encode_utf8("origin"@),
    ]
}

/// What the task asks for.
pub open spec fn slug_action(t: SlugTaskView) -> SlugActionView {
    match t.phase {
        SlugPhaseView::ProbeJj => SlugActionView::IsDir(below_text(t.repo, ".jj"@)),
        SlugPhaseView::AskJj => SlugActionView::Run {
            program: "jj"@,
            args: jj_args(t.role, t.repo),
        },
        SlugPhaseView::AskGit => SlugActionView::Run { program: "git"@, args: git_args(t.repo) },
        SlugPhaseView::Finished(r) => SlugActionView::Return(r),
    }
}

/// What a URL, or the lack of one, makes of the search.
pub open spec fn derived(role: Role, repo: Seq<u8>, url: Option<Seq<char>>) -> Result<
    Seq<char>,
    Seq<char>,
> {
    match (role, url) {
        (Role::Client, Some(u)) => match origin_slug(u) {
            Some(s) => Ok(s),
            None => Err(NO_REMOTE@),
        },
        (Role::Client, None) => Err(NO_REMOTE@),
        (Role::Server, Some(u)) => match repo_slug(u) {
            Some(s) => Ok(s),
            None => Err(
                "could not parse repo slug from origin remote URL `"@ + u + "` for "@ + lossy(repo),
            ),
        },
        (Role::Server, None) => Err(no_origin(repo)),
    }
}

/// The failure when a server's repository has no `origin`. It begins with the way
/// out.
pub open spec fn no_origin(repo: Seq<u8>) -> Seq<char> {
    "pass `--slug <NAME>` explicitly: cannot auto-derive repo slug for "@ + lossy(repo)
        + " (no `origin` remote configured)\n\nExample:\n    crossbridge-server --group <GROUP> --slug <NAME>"@
}

/// The end of the search. When a blank flag was passed over, a failure says so.
pub open spec fn settled(
    blank: bool,
    result: Result<Seq<char>, Seq<char>>,
) -> SlugPhaseView {
    SlugPhaseView::Finished(
        match result {
            Ok(s) => Ok(s),
            Err(e) => if blank {
                Err(BLANK_FLAG@ + ": "@ + e)
            } else {
                Err(e)
            },
        },
    )
}

/// Where the search stands after a reply. A reply of a kind that was not asked for
/// changes nothing.
pub open spec fn slug_next(t: SlugTaskView, reply: SlugReplyView) -> SlugPhaseView {
    match (t.phase, reply) {
        (SlugPhaseView::ProbeJj, SlugReplyView::Answer(yes)) => if yes {
            SlugPhaseView::AskJj
        } else {
            SlugPhaseView::AskGit
        },
        (SlugPhaseView::AskJj, SlugReplyView::Ran { success, stdout }) => {
            let url = if success {
                listed_origin(t.role, lossy(stdout))
            } else {
                None
            };
            if url is None && t.role is Client {
                SlugPhaseView::AskGit
            } else {
                settled(t.blank, derived(t.role, t.repo, url))
            }
        },
        (SlugPhaseView::AskJj, SlugReplyView::Failed(e)) => match t.role {
            Role::Client => SlugPhaseView::AskGit,
            Role::Server => settled(
                t.blank,
                Err("running jj in "@ + lossy(t.repo) + ": "@ + e),
            ),
        },
        (SlugPhaseView::AskGit, SlugReplyView::Ran { success, stdout }) => {
            let url = if success {
                nonempty(trimmed(lossy(stdout)))
            } else {
                None
            };
            settled(t.blank, derived(t.role, t.repo, url))
        },
        (SlugPhaseView::AskGit, SlugReplyView::Failed(e)) => match t.role {
            Role::Client => settled(t.blank, Err(NO_REMOTE@ + ": "@ + e)),
            Role::Server => settled(
                t.blank,
                Err("running git in "@ + lossy(t.repo) + ": "@ + e),
            ),
        },
        _ => t.phase,
    }
}

/// Starts deriving the slug of a client's repository. A remote that `jj` does not
/// know is asked of `git`.
pub fn derive_own_slug(repo_root: PathName) -> (t: SlugTask)
    ensures
        t@ == (SlugTaskView {
            role: Role::Client,
            repo: repo_root@,
            blank: false,
            phase: SlugPhaseView::ProbeJj,
        }),
{
    SlugTask { role: Role::Client, repo: repo_root, blank: false, phase: SlugPhase::ProbeJj }
}

/// Starts deriving the slug of a server's repository. In a repository with a `.jj`
/// directory only `jj` is asked.
pub fn derive_from_repo(repo_path: PathName) -> (t: SlugTask)
    ensures
        t@ == (SlugTaskView {
            role: Role::Server,
            repo: repo_path@,
            blank: false,
            phase: SlugPhaseView::ProbeJj,
        }),
{
    SlugTask { role: Role::Server, repo: repo_path, blank: false, phase: SlugPhase::ProbeJj }
}

/// What a flag says: its text without the white space round it, unless it is blank.
pub open spec fn flag_slug(flag: Option<Seq<char>>) -> Option<Seq<char>> {
    match flag {
        Some(s) => nonempty(trimmed(s)),
        None => None,
    }
}

/// Where a search without a flag starts: with the variable, else with the
/// repository.
pub open spec fn flagless_start(raw: Option<Seq<u8>>) -> SlugPhaseView {
    match own_slug_of(raw) {
        Some(s) => SlugPhaseView::Finished(Ok(s)),
        None => SlugPhaseView::ProbeJj,
    }
}

/// Where a client's search starts: with the flag; when there is none or it is
/// blank, with the variable; else with the repository.
pub open spec fn client_start(flag: Option<Seq<char>>, raw: Option<Seq<u8>>) -> SlugPhaseView {
    match flag_slug(flag) {
        Some(s) => SlugPhaseView::Finished(Ok(s)),
        None => flagless_start(raw),
    }
}

/// Where a server's search starts: with the flag, which must not be blank; else
/// with the variable; else with the repository.
pub open spec fn server_start(flag: Option<Seq<char>>, raw: Option<Seq<u8>>) -> SlugPhaseView {
    match flag_slug(flag) {
        Some(s) => SlugPhaseView::Finished(Ok(s)),
        None => if flag is Some {
            SlugPhaseView::Finished(Err(BLANK_FLAG@))
        } else {
            flagless_start(raw)
        },
    }
}

/// The characters of an optional flag.
pub open spec fn flag_view(flag: Option<&str>) -> Option<Seq<char>> {
    match flag {
        Some(s) => Some(s@),
        None => None,
    }
}

/// What a flag says.
fn read_flag(flag: Option<&str>) -> (r: Option<String>)
    ensures
        match r {
            Some(s) => flag_slug(flag_view(flag)) == Some(s@),
            None => flag_slug(flag_view(flag)) is None,
        },
{
    match flag {
        Some(s) => {
            let t: &str = trim(s);
            if t.is_empty() {
                None
            } else {
                Some(t.to_owned())
            }
        },
        None => None,
    }
}

/// What the variable's value makes of the search.
fn from_value(raw: Option<Vec<u8>>) -> (p: SlugPhase)
    ensures
        p@ == flagless_start(opt_bytes(raw)),
{
    match own_slug_value(raw) {
        Some(s) => SlugPhase::Finished(Ok(s)),
        None => SlugPhase::ProbeJj,
    }
}

/// Starts finding the slug of a client's repository. It fails only when the flag,
/// the variable and the repository all give none.
pub fn resolve_own_slug<F: Fn(&str) -> Option<Vec<u8>>>(
    flag: Option<&str>,
    env_lookup: F,
    repo_root: PathName,
) -> (t: SlugTask)
    requires
        flag_slug(flag_view(flag)) is None ==> env_lookup.requires((OWN_SLUG_ENV,)),
    ensures
        t@.role == Role::Client,
        t@.repo == repo_root@,
        t@.blank == (flag is Some && flag_slug(flag_view(flag)) is None),
        exists|raw: Option<Vec<u8>>|
            #![trigger opt_bytes(raw)]
            (flag_slug(flag_view(flag)) is None ==> env_lookup.ensures((OWN_SLUG_ENV,), raw))
                && t@.phase == client_start(flag_view(flag), opt_bytes(raw)),
{
    match read_flag(flag) {
        Some(s) => {
            let ghost none: Option<Vec<u8>> = None;
            assert(opt_bytes(none) is None);
            let phase: SlugPhase = SlugPhase::Finished(Ok(s));
            SlugTask { role: Role::Client, repo: repo_root, blank: false, phase }
        },
        None => {
            let raw: Option<Vec<u8>> = env_lookup(OWN_SLUG_ENV);
            let ghost seen = opt_bytes(raw);
            let phase: SlugPhase = from_value(raw);
            SlugTask { role: Role::Client, repo: repo_root, blank: flag.is_some(), phase }
        },
    }
}

/// Starts finding the slug of a server's repository.
pub fn resolve_slug<F: Fn(&str) -> Option<Vec<u8>>>(
    flag: Option<&str>,
    env_lookup: F,
    repo_path: PathName,
) -> (t: SlugTask)
    requires
        flag is None ==> env_lookup.requires((OWN_SLUG_ENV,)),
    ensures
        t@.role == Role::Server,
        t@.repo == repo_path@,
        !t@.blank,
        exists|raw: Option<Vec<u8>>|
            #![trigger opt_bytes(raw)]
            (flag is None ==> env_lookup.ensures((OWN_SLUG_ENV,), raw)) && t@.phase == server_start(
                flag_view(flag),
                opt_bytes(raw),
            ),
{
    let phase: SlugPhase = if flag.is_some() {
        let ghost none: Option<Vec<u8>> = None;
        assert(opt_bytes(none) is None);
        match read_flag(flag) {
            Some(s) => SlugPhase::Finished(Ok(s)),
            None => SlugPhase::Finished(Err(BLANK_FLAG.to_owned())),
        }
    } else {
        let raw: Option<Vec<u8>> = env_lookup(OWN_SLUG_ENV);
        let ghost seen = opt_bytes(raw);
        from_value(raw)
    };
    SlugTask { role: Role::Server, repo: repo_path, blank: false, phase }
}

impl SlugTask {
    /// What to do next.
    pub fn current(&self) -> (a: SlugAction)
        ensures
            a@ == slug_action(self@),
    {
        match &self.phase {
            SlugPhase::ProbeJj => SlugAction::IsDir(self.repo.join(".jj")),
            SlugPhase::AskJj => {
                let mut args: Vec<PathName> = Vec::new();
                args.push(
                    PathName::from_text(
                        match self.role {
                            Role::Client => "--repository",
                            Role::Server => "-R",
                        },
                    ),
                );
                args.push(self.repo.copy());
                args.push(PathName::from_text("git"));
                args.push(PathName::from_text("remote"));
                args.push(PathName::from_text("list"));
                assert(views(args@) =~= jj_args(self@.role, self@.repo));
                SlugAction::Run { program: "jj".to_owned(), args }
            },
            SlugPhase::AskGit => {
                let mut args: Vec<PathName> = Vec::new();
                args.push(PathName::from_text("-C"));
                args.push(self.repo.copy());
                args.push(PathName::from_text("remote"));
                args.push(PathName::from_text("get-url"));
                args.push(PathName::from_text("origin"));
                assert(views(args@) =~= git_args(self@.repo));
                SlugAction::Run { program: "git".to_owned(), args }
            },
            SlugPhase::Finished(r) => SlugAction::Return(
                match r {
                    Ok(s) => Ok(s.clone()),
                    Err(e) => Err(e.clone()),
                },
            ),
        }
    }

    /// What a URL, or the lack of one, makes of the search.
    fn derived(&self, url: Option<String>) -> (r: Result<String, String>)
        ensures
            slug_view(r) == derived(
                self@.role,
                self@.repo,
                match url {
                    Some(u) => Some(u@),
                    None => None,
                },
            ),
    {
        match (self.role, url) {
            (Role::Client, Some(u)) => match parse_origin_url(u.as_str()) {
                Some(s) => Ok(s),
                None => Err(NO_REMOTE.to_owned()),
            },
            (Role::Client, None) => Err(NO_REMOTE.to_owned()),
            (Role::Server, Some(u)) => match parse_slug(u.as_str()) {
                Some(s) => Ok(s),
                None => {
                    let place: String = self.repo.display();
                    Err(
                        cat4(
                            "could not parse repo slug from origin remote URL `",
                            u.as_str(),
                            "` for ",
                            place.as_str(),
                        ),
                    )
                },
            },
            (Role::Server, None) => {
                let place: String = self.repo.display();
                Err(
                    cat3(
                        "pass `--slug <NAME>` explicitly: cannot auto-derive repo slug for ",
                        place.as_str(),
                        " (no `origin` remote configured)\n\nExample:\n    crossbridge-server --group <GROUP> --slug <NAME>",
                    ),
                )
            },
        }
    }

    /// Ends the search.
    fn settled(&self, r: Result<String, String>) -> (p: SlugPhase)
        ensures
            p@ == settled(self@.blank, slug_view(r)),
    {
        match r {
            Err(e) => if self.blank {
                SlugPhase::Finished(Err(cat3(BLANK_FLAG, ": ", e.as_str())))
            } else {
                SlugPhase::Finished(Err(e))
            },
            Ok(s) => SlugPhase::Finished(Ok(s)),
        }
    }

    /// Goes on with what came of [`SlugTask::current`].
    pub fn resume(&mut self, reply: SlugReply)
        ensures
            final(self)@ == (SlugTaskView { phase: slug_next(old(self)@, reply@), ..old(self)@ }),
    {
        let next: SlugPhase = match (&self.phase, reply) {
            (SlugPhase::ProbeJj, SlugReply::Answer(yes)) => if yes {
                SlugPhase::AskJj
            } else {
                SlugPhase::AskGit
            },
            (SlugPhase::AskJj, SlugReply::Ran { success, stdout }) => {
                let url: Option<String> = if success {
                    let list: String = lossy_text(&stdout);
                    find_origin(self.role, list.as_str())
                } else {
                    None
                };
                match (&url, self.role) {
                    (None, Role::Client) => SlugPhase::AskGit,
                    _ => self.settled(self.derived(url)),
                }
            },
            (SlugPhase::AskJj, SlugReply::Failed(e)) => match self.role {
                Role::Client => SlugPhase::AskGit,
                Role::Server => {
                    let place: String = self.repo.display();
                    self.settled(
                        Err(cat4("running jj in ", place.as_str(), ": ", e.as_str())),
                    )
                },
            },
            (SlugPhase::AskGit, SlugReply::Ran { success, stdout }) => {
                let url: Option<String> = if success {
                    let text: String = lossy_text(&stdout);
                    let t: &str = trim(text.as_str());
                    if t.is_empty() {
                        None
                    } else {
                        Some(t.to_owned())
                    }
                } else {
                    None
                };
                self.settled(self.derived(url))
            },
            (SlugPhase::AskGit, SlugReply::Failed(e)) => match self.role {
                Role::Client => self.settled(Err(cat3(NO_REMOTE, ": ", e.as_str()))),
                Role::Server => {
                    let place: String = self.repo.display();
                    self.settled(
                        Err(cat4("running git in ", place.as_str(), ": ", e.as_str())),
                    )
                },
            },
            _ => {
                return;
            },
        };
        self.phase = next;
    }
}

} // verus!
