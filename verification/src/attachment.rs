//! Recording attachments as a commit of the receiving repository.
//!
//! A workspace of its own is added to the repository under `.crossbridge-tmp/`,
//! the files are written into it, the commit is described and its id is read; then
//! the workspace is forgotten and removed, whether or not all of that went well.
//!
//! This is a task: it names the operation to carry out,
//! [`MaterializeTask::current`], and is resumed with its outcome.

use vstd::prelude::*;

use crate::compose::{cat2, cat3, cat4, decimal_nat, decimal_u128, join, joined, views, views_push};
use crate::encoding::{lossy, lossy_text, utf8_text};
use crate::messages::{Attachment, AttachmentView};
use crate::pathname::{below_text, PathName};
use crate::text::{is_one_of, trim, trimmed};
use vstd::utf8::*;

verus! {

broadcast use vstd::seq_lib::group_seq_properties;

/// The commit that attachments were recorded in, and their file names.
#[derive(Debug, Clone, PartialEq, Eq)]
pub struct MaterializedAttachment {
    pub commit_id: String,
    pub filenames: Vec<String>,
}

/// The contents of [`MaterializedAttachment`].
#[verifier::ext_equal]
pub struct MaterializedView {
    pub commit_id: Seq<char>,
    pub filenames: Seq<Seq<char>>,
}

impl View for MaterializedAttachment {
    type V = MaterializedView;

    open spec fn view(&self) -> MaterializedView {
        MaterializedView { commit_id: self.commit_id@, filenames: views(self.filenames@) }
    }
}

/// The comment that records a commit of attachments.
pub open spec fn comment_text(rec: MaterializedView) -> Seq<char> {
    "crossbridge: materialized attachment(s) ["@ + joined(rec.filenames, ", "@) + "] as commit "@
        + rec.commit_id
}

/// The comment that is put on the issue once its attachments are recorded.
pub fn format_comment(rec: &MaterializedAttachment) -> (r: String)
    ensures
        r@ == comment_text(rec@),
{
    let files: String = join(&rec.filenames, ", ");
    cat4(
        "crossbridge: materialized attachment(s) [",
        files.as_str(),
        "] as commit ",
        rec.commit_id.as_str(),
    )
}

/// The directory that holds the workspaces of a repository.
pub open spec fn tmp_below(repo: Seq<u8>) -> Seq<u8> {
    below_text(repo, ".crossbridge-tmp"@)
}

/// The directory that holds the workspaces of a repository.
pub fn tmp_root(repo_path: &PathName) -> (r: PathName)
    ensures
        r@ == tmp_below(repo_path@),
{
    repo_path.join(".crossbridge-tmp")
}

/// The name of a workspace that process `pid` adds at the time `nanos`.
pub open spec fn unique_text(pid: u32, nanos: u128) -> Seq<char> {
    "xb-attach-"@ + decimal_nat(pid as nat) + "-"@ + decimal_nat(nanos as nat)
}

/// Makes the name of a workspace.
pub fn unique_name(pid: u32, nanos: u128) -> (r: String)
    ensures
        r@ == unique_text(pid, nanos),
{
    cat4(
        "xb-attach-",
        decimal_u128(pid as u128).as_str(),
        "-",
        decimal_u128(nanos).as_str(),
    )
}

// --- the task ------------------------------------------------------------------

/// The result of recording, with texts in characters.
pub open spec fn record_view(r: Result<MaterializedAttachment, String>) -> Result<
    MaterializedView,
    Seq<char>,
> {
    match r {
        Ok(rec) => Ok(rec@),
        Err(e) => Err(e@),
    }
}

/// How far the recording has come. `name` is the workspace's name.
#[derive(Debug, PartialEq, Eq)]
pub enum MaterializePhase {
    /// Is there a `.jj` directory?
    ProbeJj,
    /// Is there a `.git`?
    ProbeGit,
    /// Reading the process number and the clock.
    Stamp,
    /// Making the directory for workspaces.
    MakeRoot { name: String },
    /// Is there something where the workspace is to go?
    ProbeOld { name: String },
    /// Removing it.
    ClearOld { name: String },
    /// Adding the workspace.
    AddWorkspace { name: String },
    /// Writing the file at position `at`.
    WriteFile { name: String, at: usize },
    /// Describing the commit.
    Describe { name: String },
    /// Reading the commit's id.
    ReadId { name: String },
    /// Making the repository forget the workspace.
    Forget { name: String, result: Result<MaterializedAttachment, String> },
    /// Removing the workspace.
    Remove { name: String, result: Result<MaterializedAttachment, String> },
    /// The result is known.
    Finished(Result<MaterializedAttachment, String>),
}

/// The contents of [`MaterializePhase`].
#[verifier::ext_equal]
pub enum MaterializePhaseView {
    ProbeJj,
    ProbeGit,
    Stamp,
    MakeRoot { name: Seq<char> },
    ProbeOld { name: Seq<char> },
    ClearOld { name: Seq<char> },
    AddWorkspace { name: Seq<char> },
    WriteFile { name: Seq<char>, at: nat },
    Describe { name: Seq<char> },
    ReadId { name: Seq<char> },
    Forget { name: Seq<char>, result: Result<MaterializedView, Seq<char>> },
    Remove { name: Seq<char>, result: Result<MaterializedView, Seq<char>> },
    Finished(Result<MaterializedView, Seq<char>>),
}

impl View for MaterializePhase {
    type V = MaterializePhaseView;

    open spec fn view(&self) -> MaterializePhaseView {
        match self {
            MaterializePhase::ProbeJj => MaterializePhaseView::ProbeJj,
            MaterializePhase::ProbeGit => MaterializePhaseView::ProbeGit,
            MaterializePhase::Stamp => MaterializePhaseView::Stamp,
            MaterializePhase::MakeRoot { name } => MaterializePhaseView::MakeRoot { name: name@ },
            MaterializePhase::ProbeOld { name } => MaterializePhaseView::ProbeOld { name: name@ },
            MaterializePhase::ClearOld { name } => MaterializePhaseView::ClearOld { name: name@ },
            MaterializePhase::AddWorkspace { name } => MaterializePhaseView::AddWorkspace {
                name: name@,
            },
            MaterializePhase::WriteFile { name, at } => MaterializePhaseView::WriteFile {
                name: name@,
                at: *at as nat,
            },
            MaterializePhase::Describe { name } => MaterializePhaseView::Describe { name: name@ },
            MaterializePhase::ReadId { name } => MaterializePhaseView::ReadId { name: name@ },
            MaterializePhase::Forget { name, result } => MaterializePhaseView::Forget {
                name: name@,
                result: record_view(*result),
            },
            MaterializePhase::Remove { name, result } => MaterializePhaseView::Remove {
                name: name@,
                result: record_view(*result),
            },
            MaterializePhase::Finished(r) => MaterializePhaseView::Finished(record_view(*r)),
        }
    }
}

/// A recording under way.
#[derive(Debug, PartialEq, Eq)]
pub struct MaterializeTask {
    repo: PathName,
    attachments: Vec<Attachment>,
    phase: MaterializePhase,
}

/// The contents of [`MaterializeTask`].
#[verifier::ext_equal]
pub struct MaterializeTaskView {
    pub repo: Seq<u8>,
    pub attachments: Seq<AttachmentView>,
    pub phase: MaterializePhaseView,
}

impl View for MaterializeTask {
    type V = MaterializeTaskView;

    closed spec fn view(&self) -> MaterializeTaskView {
        MaterializeTaskView {
            repo: self.repo@,
            attachments: views(self.attachments@),
            phase: self.phase@,
        }
    }
}

/// What the recording asks for.
#[derive(Debug, PartialEq, Eq)]
pub enum MaterializeAction {
    /// Is there a directory? Answered with `Answer`.
    IsDir(PathName),
    /// Is there anything? Answered with `Answer`.
    Exists(PathName),
    /// The process number and the nanoseconds since the epoch. Answered with
    /// `Stamp`.
    Stamp,
    /// Creates a directory and its parents. Answered with `Done`.
    CreateDir(PathName),
    /// Removes a directory and what it holds. Answered with `Done`.
    RemoveDir(PathName),
    /// Writes a file. Answered with `Done`.
    Write(PathName, Vec<u8>),
    /// Runs `jj` in a directory. Answered with `Ran`.
    Jj { cwd: PathName, args: Vec<String> },
    /// Nothing more: this is the result.
    Return(Result<MaterializedAttachment, String>),
}

/// The contents of [`MaterializeAction`].
#[verifier::ext_equal]
pub enum MaterializeActionView {
    IsDir(Seq<u8>),
    Exists(Seq<u8>),
    Stamp,
    CreateDir(Seq<u8>),
    RemoveDir(Seq<u8>),
    Write(Seq<u8>, Seq<u8>),
    Jj { cwd: Seq<u8>, args: Seq<Seq<char>> },
    Return(Result<MaterializedView, Seq<char>>),
}

impl View for MaterializeAction {
    type V = MaterializeActionView;

    open spec fn view(&self) -> MaterializeActionView {
        match self {
            MaterializeAction::IsDir(p) => MaterializeActionView::IsDir(p@),
            MaterializeAction::Exists(p) => MaterializeActionView::Exists(p@),
            MaterializeAction::Stamp => MaterializeActionView::Stamp,
            MaterializeAction::CreateDir(p) => MaterializeActionView::CreateDir(p@),
            MaterializeAction::RemoveDir(p) => MaterializeActionView::RemoveDir(p@),
            MaterializeAction::Write(p, data) => MaterializeActionView::Write(p@, data@),
            MaterializeAction::Jj { cwd, args } => MaterializeActionView::Jj {
                cwd: cwd@,
                args: views(args@),
            },
            MaterializeAction::Return(r) => MaterializeActionView::Return(record_view(*r)),
        }
    }
}

/// What came of an action.
#[derive(Debug, PartialEq, Eq)]
pub enum MaterializeReply {
    Answer(bool),
    Stamp { pid: u32, nanos: u128 },
    Done,
    /// The program ran and ended, with success or not.
    Ran { success: bool, stdout: Vec<u8>, stderr: Vec<u8> },
    /// The action failed; the failure in words.
    Failed(String),
}

/// The contents of [`MaterializeReply`].
#[verifier::ext_equal]
pub enum MaterializeReplyView {
    Answer(bool),
    Stamp { pid: u32, nanos: u128 },
    Done,
    Ran { success: bool, stdout: Seq<u8>, stderr: Seq<u8> },
    Failed(Seq<char>),
}

impl View for MaterializeReply {
    type V = MaterializeReplyView;

    open spec fn view(&self) -> MaterializeReplyView {
        match self {
            MaterializeReply::Answer(b) => MaterializeReplyView::Answer(*b),
            MaterializeReply::Stamp { pid, nanos } => MaterializeReplyView::Stamp {
                pid: *pid,
                nanos: *nanos,
            },
            MaterializeReply::Done => MaterializeReplyView::Done,
            MaterializeReply::Ran { success, stdout, stderr } => MaterializeReplyView::Ran {
                success: *success,
                stdout: stdout@,
                stderr: stderr@,
            },
            MaterializeReply::Failed(e) => MaterializeReplyView::Failed(e@),
        }
    }
}

/// Where the workspace goes.
pub open spec fn workspace(repo: Seq<u8>, name: Seq<char>) -> Seq<u8> {
    below_text(tmp_below(repo), name)
}

/// The names of the attachments.
pub open spec fn filenames(attachments: Seq<AttachmentView>) -> Seq<Seq<char>> {
    Seq::new(attachments.len(), |i: int| attachments[i].filename)
}

/// The arguments that add the workspace.
pub open spec fn add_args(repo: Seq<u8>, name: Seq<char>) -> Seq<Seq<char>> {
    seq!["workspace"@, "add"@, "--name"@, name, decode_utf8(workspace(repo, name))]
}

/// The arguments that describe the commit.
pub open spec fn describe_args(attachments: Seq<AttachmentView>) -> Seq<Seq<char>> {
    seq![
        "describe"@,
        "-m"@,
        "crossbridge attachment: "@ + joined(filenames(attachments), ", "@),
    ]
}

/// The arguments that read the commit's id.
pub open spec fn log_args() -> Seq<Seq<char>> {
    seq!["log"@, "-r"@, "@"@, "--no-graph"@, "-T"@, "commit_id"@]
}

/// The arguments that make the repository forget the workspace.
pub open spec fn forget_args(name: Seq<char>) -> Seq<Seq<char>> {
    seq!["workspace"@, "forget"@, name]
}

/// What is wrong with a file name: it is empty, or it would lead elsewhere.
pub open spec fn name_fault(filename: Seq<char>) -> Option<Seq<char>> {
    if filename.len() == 0 {
        Some("attachment with empty filename"@)
    } else if filename.contains('/') || filename.contains('\\') {
        Some("attachment filename `"@ + filename + "` must not contain path separators"@)
    } else {
        None
    }
}

/// The failure of a program that could not be run.
pub open spec fn spawn_failure(args: Seq<Seq<char>>, e: Seq<char>) -> Seq<char> {
    "running `jj "@ + joined(args, " "@) + "`: "@ + e
}

/// The failure of a program that ended without success.
pub open spec fn exit_failure(args: Seq<Seq<char>>, cwd: Seq<u8>, stderr: Seq<u8>) -> Seq<char> {
    "`jj "@ + joined(args, " "@) + "` failed in "@ + (lossy(cwd) + ": "@ + trimmed(lossy(stderr)))
}

/// What the task asks for.
pub open spec fn materialize_action(t: MaterializeTaskView) -> MaterializeActionView {
    match t.phase {
        MaterializePhaseView::ProbeJj => MaterializeActionView::IsDir(below_text(t.repo, ".jj"@)),
        MaterializePhaseView::ProbeGit => MaterializeActionView::Exists(
            below_text(t.repo, ".git"@),
        ),
        MaterializePhaseView::Stamp => MaterializeActionView::Stamp,
        MaterializePhaseView::MakeRoot { .. } => MaterializeActionView::CreateDir(
            tmp_below(t.repo),
        ),
        MaterializePhaseView::ProbeOld { name } => MaterializeActionView::Exists(
            workspace(t.repo, name),
        ),
        MaterializePhaseView::ClearOld { name } => MaterializeActionView::RemoveDir(
            workspace(t.repo, name),
        ),
        MaterializePhaseView::AddWorkspace { name } => MaterializeActionView::Jj {
            cwd: t.repo,
            args: add_args(t.repo, name),
        },
        MaterializePhaseView::WriteFile { name, at } => {
            let a = t.attachments[at as int];
            MaterializeActionView::Write(below_text(workspace(t.repo, name), a.filename), a.data)
        },
        MaterializePhaseView::Describe { name } => MaterializeActionView::Jj {
            cwd: workspace(t.repo, name),
            args: describe_args(t.attachments),
        },
        MaterializePhaseView::ReadId { name } => MaterializeActionView::Jj {
            cwd: workspace(t.repo, name),
            args: log_args(),
        },
        MaterializePhaseView::Forget { name, .. } => MaterializeActionView::Jj {
            cwd: t.repo,
            args: forget_args(name),
        },
        MaterializePhaseView::Remove { name, .. } => MaterializeActionView::RemoveDir(
            workspace(t.repo, name),
        ),
        MaterializePhaseView::Finished(r) => MaterializeActionView::Return(r),
    }
}

/// Adding the workspace, whose path has to be text.
pub open spec fn adding(repo: Seq<u8>, name: Seq<char>) -> MaterializePhaseView {
    if valid_utf8(workspace(repo, name)) {
        MaterializePhaseView::AddWorkspace { name }
    } else {
        MaterializePhaseView::Forget {
            name,
            result: Err("workspace path "@ + lossy(workspace(repo, name)) + " not utf-8"@),
        }
    }
}

/// Writing the files from position `at` on.
pub open spec fn writing(
    attachments: Seq<AttachmentView>,
    name: Seq<char>,
    at: nat,
) -> MaterializePhaseView {
    if at >= attachments.len() {
        MaterializePhaseView::Describe { name }
    } else {
        match name_fault(attachments[at as int].filename) {
            Some(e) => MaterializePhaseView::Forget { name, result: Err(e) },
            None => MaterializePhaseView::WriteFile { name, at },
        }
    }
}

/// The failure of a run of `jj`, if it failed.
pub open spec fn jj_failure(
    context: Seq<char>,
    args: Seq<Seq<char>>,
    cwd: Seq<u8>,
    reply: MaterializeReplyView,
) -> Option<Seq<char>> {
    match reply {
        MaterializeReplyView::Ran { success: false, stderr, .. } => Some(
            context + exit_failure(args, cwd, stderr),
        ),
        MaterializeReplyView::Failed(e) => Some(context + spawn_failure(args, e)),
        _ => None,
    }
}

/// What the id that was read makes of the recording.
pub open spec fn recorded(attachments: Seq<AttachmentView>, stdout: Seq<u8>) -> Result<
    MaterializedView,
    Seq<char>,
> {
    let commit_id = trimmed(lossy(stdout));
    if commit_id.len() == 0 {
        Err("jj log returned empty commit_id"@)
    } else {
        Ok(MaterializedView { commit_id, filenames: filenames(attachments) })
    }
}

/// Where the task stands after a reply. A reply of a kind that was not asked for
/// changes nothing.
pub open spec fn materialize_next(
    t: MaterializeTaskView,
    reply: MaterializeReplyView,
) -> MaterializePhaseView {
    match (t.phase, reply) {
        (MaterializePhaseView::ProbeJj, MaterializeReplyView::Answer(yes)) => if yes {
            MaterializePhaseView::Stamp
        } else {
            MaterializePhaseView::ProbeGit
        },
        (MaterializePhaseView::ProbeGit, MaterializeReplyView::Answer(yes)) => if yes {
            MaterializePhaseView::Stamp
        } else {
            MaterializePhaseView::Finished(
                Err(lossy(t.repo) + " is neither a jj nor a git repo"@),
            )
        },
        (MaterializePhaseView::Stamp, MaterializeReplyView::Stamp { pid, nanos }) => {
            MaterializePhaseView::MakeRoot { name: unique_text(pid, nanos) }
        },
        (MaterializePhaseView::MakeRoot { name }, MaterializeReplyView::Done) => {
            MaterializePhaseView::ProbeOld { name }
        },
        (MaterializePhaseView::MakeRoot { name }, MaterializeReplyView::Failed(e)) => {
            MaterializePhaseView::Finished(
                Err("creating "@ + lossy(tmp_below(t.repo)) + ": "@ + e),
            )
        },
        (MaterializePhaseView::ProbeOld { name }, MaterializeReplyView::Answer(yes)) => if yes {
            MaterializePhaseView::ClearOld { name }
        } else {
            adding(t.repo, name)
        },
        (MaterializePhaseView::ClearOld { name }, MaterializeReplyView::Done) => adding(
            t.repo,
            name,
        ),
        (MaterializePhaseView::ClearOld { name }, MaterializeReplyView::Failed(e)) => {
            MaterializePhaseView::Finished(Err(e))
        },
        (MaterializePhaseView::AddWorkspace { name }, r) => match jj_failure(
            "jj workspace add: "@,
            add_args(t.repo, name),
            t.repo,
            r,
        ) {
            Some(e) => MaterializePhaseView::Forget { name, result: Err(e) },
            None => if r is Ran {
                writing(t.attachments, name, 0)
            } else {
                t.phase
            },
        },
        (MaterializePhaseView::WriteFile { name, at }, MaterializeReplyView::Done) => writing(
            t.attachments,
            name,
            at + 1,
        ),
        (MaterializePhaseView::WriteFile { name, at }, MaterializeReplyView::Failed(e)) => {
            let dest = below_text(workspace(t.repo, name), t.attachments[at as int].filename);
            MaterializePhaseView::Forget {
                name,
                result: Err("writing attachment "@ + lossy(dest) + ": "@ + e),
            }
        },
        (MaterializePhaseView::Describe { name }, r) => match jj_failure(
            "jj describe: "@,
            describe_args(t.attachments),
            workspace(t.repo, name),
            r,
        ) {
            Some(e) => MaterializePhaseView::Forget { name, result: Err(e) },
            None => if r is Ran {
                MaterializePhaseView::ReadId { name }
            } else {
                t.phase
            },
        },
        (MaterializePhaseView::ReadId { name }, r) => match jj_failure(
            "jj log -r @: "@,
            log_args(),
            workspace(t.repo, name),
            r,
        ) {
            Some(e) => MaterializePhaseView::Forget { name, result: Err(e) },
            None => match r {
                MaterializeReplyView::Ran { stdout, .. } => MaterializePhaseView::Forget {
                    name,
                    result: recorded(t.attachments, stdout),
                },
                _ => t.phase,
            },
        },
        (MaterializePhaseView::Forget { name, result }, MaterializeReplyView::Ran { .. }) => {
            MaterializePhaseView::Remove { name, result }
        },
        (MaterializePhaseView::Forget { name, result }, MaterializeReplyView::Failed(_)) => {
            MaterializePhaseView::Remove { name, result }
        },
        (MaterializePhaseView::Remove { name, result }, MaterializeReplyView::Done) => {
            MaterializePhaseView::Finished(result)
        },
        (MaterializePhaseView::Remove { name, result }, MaterializeReplyView::Failed(_)) => {
            MaterializePhaseView::Finished(result)
        },
        _ => t.phase,
    }
}

/// A recording at its beginning.
pub open spec fn recording(
    repo: Seq<u8>,
    attachments: Seq<AttachmentView>,
) -> MaterializeTaskView {
    MaterializeTaskView {
        repo,
        attachments,
        phase: if attachments.len() == 0 {
            MaterializePhaseView::Finished(Err("no attachments to materialize"@))
        } else {
            MaterializePhaseView::ProbeJj
        },
    }
}

/// A copy of attachments.
pub fn copy_attachments(v: &Vec<Attachment>) -> (r: Vec<Attachment>)
    ensures
        views(r@) == views(v@),
{
    let mut r: Vec<Attachment> = Vec::new();
    let ghost all = views(v@);
    let mut i: usize = 0;
    while i < v.len()
        invariant
            i <= v.len(),
            all == views(v@),
            views(r@) == all.take(i as int),
        decreases v.len() - i,
    {
        let x: Attachment = Attachment {
            filename: v[i].filename.clone(),
            data: vstd::slice::slice_to_vec(v[i].data.as_slice()),
        };
        assert(x@ == all[i as int]);
        proof {
            views_push(r@, x);
        }
        r.push(x);
        assert(all.take(i as int).push(x@) == all.take(i + 1));
        i = i + 1;
    }
    assert(all.take(i as int) == all);
    r
}

/// Starts recording `attachments`, of which there has to be at least one, as one
/// commit of the repository at `repo_path`.
pub fn materialize(repo_path: PathName, attachments: Vec<Attachment>) -> (t: MaterializeTask)
    ensures
        t@ == recording(repo_path@, views(attachments@)),
{
    let phase: MaterializePhase = if attachments.len() == 0 {
        MaterializePhase::Finished(Err("no attachments to materialize".to_owned()))
    } else {
        MaterializePhase::ProbeJj
    };
    MaterializeTask { repo: repo_path, attachments, phase }
}

// --- making arguments and failures ---------------------------------------------

fn make_add_args(name: &String, ws: String) -> (r: Vec<String>)
    ensures
        views(r@) == seq!["workspace"@, "add"@, "--name"@, name@, ws@],
{
    let mut r: Vec<String> = Vec::new();
    r.push("workspace".to_owned());
    r.push("add".to_owned());
    r.push("--name".to_owned());
    r.push(name.clone());
    r.push(ws);
    assert(views(r@) =~= seq!["workspace"@, "add"@, "--name"@, name@, ws@]);
    r
}

fn make_filenames(attachments: &Vec<Attachment>) -> (r: Vec<String>)
    ensures
        views(r@) == filenames(views(attachments@)),
{
    let mut r: Vec<String> = Vec::new();
    let ghost all = filenames(views(attachments@));
    let mut i: usize = 0;
    while i < attachments.len()
        invariant
            i <= attachments.len(),
            all == filenames(views(attachments@)),
            views(r@) == all.take(i as int),
        decreases attachments.len() - i,
    {
        let f: String = attachments[i].filename.clone();
        proof {
            views_push(r@, f);
        }
        r.push(f);
        assert(all.take(i as int).push(f@) == all.take(i + 1));
        i = i + 1;
    }
    assert(all.take(i as int) == all);
    r
}

fn make_describe_args(attachments: &Vec<Attachment>) -> (r: Vec<String>)
    ensures
        views(r@) == describe_args(views(attachments@)),
{
    let names: String = join(&make_filenames(attachments), ", ");
    let mut r: Vec<String> = Vec::new();
    r.push("describe".to_owned());
    r.push("-m".to_owned());
    r.push(cat2("crossbridge attachment: ", names.as_str()));
    assert(views(r@) =~= describe_args(views(attachments@)));
    r
}

fn make_log_args() -> (r: Vec<String>)
    ensures
        views(r@) == log_args(),
{
    let mut r: Vec<String> = Vec::new();
    r.push("log".to_owned());
    r.push("-r".to_owned());
    r.push("@".to_owned());
    r.push("--no-graph".to_owned());
    r.push("-T".to_owned());
    r.push("commit_id".to_owned());
    assert(views(r@) =~= log_args());
    r
}

fn make_forget_args(name: &String) -> (r: Vec<String>)
    ensures
        views(r@) == forget_args(name@),
{
    let mut r: Vec<String> = Vec::new();
    r.push("workspace".to_owned());
    r.push("forget".to_owned());
    r.push(name.clone());
    assert(views(r@) =~= forget_args(name@));
    r
}

/// What is wrong with a file name.
pub fn check_filename(filename: &String) -> (r: Option<String>)
    ensures
        match r {
            Some(e) => name_fault(filename@) == Some(e@),
            None => name_fault(filename@) is None,
        },
{
    if filename.as_str().is_empty() {
        return Some("attachment with empty filename".to_owned());
    }
    if is_one_of('/', filename.as_str()) || is_one_of('\\', filename.as_str()) {
        return Some(
            cat3("attachment filename `", filename.as_str(), "` must not contain path separators"),
        );
    }
    None
}

/// The failure of a run of `jj`, if it failed.
fn check_jj(context: &str, args: &Vec<String>, cwd: &PathName, reply: &MaterializeReply) -> (r:
    Option<String>)
    ensures
        match r {
            Some(e) => jj_failure(context@, views(args@), cwd@, reply@) == Some(e@),
            None => jj_failure(context@, views(args@), cwd@, reply@) is None,
        },
{
    match reply {
        MaterializeReply::Ran { success, stdout, stderr } => {
            if *success {
                return None;
            }
            let line: String = join(args, " ");
            let place: String = cwd.display();
            let words: String = lossy_text(stderr);
            let tail: String = cat3(place.as_str(), ": ", trim(words.as_str()));
            let e: String = cat4("`jj ", line.as_str(), "` failed in ", tail.as_str());
            Some(cat2(context, e.as_str()))
        },
        MaterializeReply::Failed(e) => {
            let line: String = join(args, " ");
            let f: String = cat4("running `jj ", line.as_str(), "`: ", e.as_str());
            Some(cat2(context, f.as_str()))
        },
        _ => None,
    }
}

impl MaterializeTask {
    /// A file that is being written is one of the attachments, and the path of a
    /// workspace that is being added is text.
    #[verifier::type_invariant]
    spec fn within(self) -> bool {
        match self.phase {
            MaterializePhase::WriteFile { at, .. } => at < self.attachments@.len(),
            MaterializePhase::AddWorkspace { name } => valid_utf8(workspace(self.repo@, name@)),
            _ => true,
        }
    }

    fn workspace(&self, name: &String) -> (r: PathName)
        ensures
            r@ == workspace(self@.repo, name@),
    {
        tmp_root(&self.repo).join(name.as_str())
    }

    fn add_args(&self, name: &String) -> (r: Vec<String>)
        requires
            valid_utf8(workspace(self@.repo, name@)),
        ensures
            views(r@) == add_args(self@.repo, name@),
    {
        let ws: PathName = self.workspace(name);
        let text: String = ws.display();
        make_add_args(name, text)
    }

    /// What to do next.
    pub fn current(&self) -> (a: MaterializeAction)
        ensures
            a@ == materialize_action(self@),
    {
        proof {
            use_type_invariant(self);
        }
        match &self.phase {
            MaterializePhase::ProbeJj => MaterializeAction::IsDir(self.repo.join(".jj")),
            MaterializePhase::ProbeGit => MaterializeAction::Exists(self.repo.join(".git")),
            MaterializePhase::Stamp => MaterializeAction::Stamp,
            MaterializePhase::MakeRoot { .. } => MaterializeAction::CreateDir(
                tmp_root(&self.repo),
            ),
            MaterializePhase::ProbeOld { name } => MaterializeAction::Exists(
                self.workspace(name),
            ),
            MaterializePhase::ClearOld { name } => MaterializeAction::RemoveDir(
                self.workspace(name),
            ),
            MaterializePhase::AddWorkspace { name } => MaterializeAction::Jj {
                cwd: self.repo.copy(),
                args: self.add_args(name),
            },
            MaterializePhase::WriteFile { name, at } => {
                let a: &Attachment = &self.attachments[*at];
                MaterializeAction::Write(
                    self.workspace(name).join(a.filename.as_str()),
                    vstd::slice::slice_to_vec(a.data.as_slice()),
                )
            },
            MaterializePhase::Describe { name } => MaterializeAction::Jj {
                cwd: self.workspace(name),
                args: make_describe_args(&self.attachments),
            },
            MaterializePhase::ReadId { name } => MaterializeAction::Jj {
                cwd: self.workspace(name),
                args: make_log_args(),
            },
            MaterializePhase::Forget { name, .. } => MaterializeAction::Jj {
                cwd: self.repo.copy(),
                args: make_forget_args(name),
            },
            MaterializePhase::Remove { name, .. } => MaterializeAction::RemoveDir(
                self.workspace(name),
            ),
            MaterializePhase::Finished(r) => MaterializeAction::Return(copy_record(r)),
        }
    }
}

impl MaterializeTask {
    /// Adds the workspace, whose path has to be text.
    fn adding(&self, name: &String) -> (p: MaterializePhase)
        ensures
            p@ == adding(self@.repo, name@),
    {
        let ws: PathName = self.workspace(name);
        match utf8_text(ws.as_bytes()) {
            Some(_) => MaterializePhase::AddWorkspace { name: name.clone() },
            None => {
                let place: String = ws.display();
                MaterializePhase::Forget {
                    name: name.clone(),
                    result: Err(cat3("workspace path ", place.as_str(), " not utf-8")),
                }
            },
        }
    }

    /// Writes the files from position `at` on.
    fn writing(&self, name: &String, at: usize) -> (p: MaterializePhase)
        ensures
            p@ == writing(self@.attachments, name@, at as nat),
            p matches MaterializePhase::WriteFile { at: k, .. } ==> k < self.attachments@.len(),
            p !is AddWorkspace,
    {
        if at >= self.attachments.len() {
            MaterializePhase::Describe { name: name.clone() }
        } else {
            match check_filename(&self.attachments[at].filename) {
                Some(e) => MaterializePhase::Forget { name: name.clone(), result: Err(e) },
                None => MaterializePhase::WriteFile { name: name.clone(), at },
            }
        }
    }

    /// What the id that was read makes of the recording.
    fn recorded(&self, stdout: &Vec<u8>) -> (r: Result<MaterializedAttachment, String>)
        ensures
            record_view(r) == recorded(self@.attachments, stdout@),
    {
        let text: String = lossy_text(stdout);
        let commit_id: &str = trim(text.as_str());
        if commit_id.is_empty() {
            Err("jj log returned empty commit_id".to_owned())
        } else {
            Ok(
                MaterializedAttachment {
                    commit_id: commit_id.to_owned(),
                    filenames: make_filenames(&self.attachments),
                },
            )
        }
    }

    /// Goes on with what came of [`MaterializeTask::current`].
    pub fn resume(&mut self, reply: MaterializeReply)
        ensures
            final(self)@ == (MaterializeTaskView {
                phase: materialize_next(old(self)@, reply@),
                ..old(self)@
            }),
    {
        proof {
            use_type_invariant(&*self);
        }
        let count: usize = self.attachments.len();
        let next: MaterializePhase = match (&self.phase, reply) {
            (MaterializePhase::ProbeJj, MaterializeReply::Answer(yes)) => if yes {
                MaterializePhase::Stamp
            } else {
                MaterializePhase::ProbeGit
            },
            (MaterializePhase::ProbeGit, MaterializeReply::Answer(yes)) => if yes {
                MaterializePhase::Stamp
            } else {
                let place: String = self.repo.display();
                MaterializePhase::Finished(
                    Err(cat2(place.as_str(), " is neither a jj nor a git repo")),
                )
            },
            (MaterializePhase::Stamp, MaterializeReply::Stamp { pid, nanos }) => {
                MaterializePhase::MakeRoot { name: unique_name(pid, nanos) }
            },
            (MaterializePhase::MakeRoot { name }, MaterializeReply::Done) => {
                MaterializePhase::ProbeOld { name: name.clone() }
            },
            (MaterializePhase::MakeRoot { name }, MaterializeReply::Failed(e)) => {
                let place: String = tmp_root(&self.repo).display();
                MaterializePhase::Finished(
                    Err(cat4("creating ", place.as_str(), ": ", e.as_str())),
                )
            },
            (MaterializePhase::ProbeOld { name }, MaterializeReply::Answer(yes)) => if yes {
                MaterializePhase::ClearOld { name: name.clone() }
            } else {
                self.adding(name)
            },
            (MaterializePhase::ClearOld { name }, MaterializeReply::Done) => self.adding(name),
            (MaterializePhase::ClearOld { name }, MaterializeReply::Failed(e)) => {
                MaterializePhase::Finished(Err(e))
            },
            (MaterializePhase::AddWorkspace { name }, r) => {
                let args: Vec<String> = self.add_args(name);
                match check_jj("jj workspace add: ", &args, &self.repo, &r) {
                    Some(e) => MaterializePhase::Forget { name: name.clone(), result: Err(e) },
                    None => match r {
                        MaterializeReply::Ran { .. } => self.writing(name, 0),
                        _ => {
                            return;
                        },
                    },
                }
            },
            (MaterializePhase::WriteFile { name, at }, MaterializeReply::Done) => {
                assert(*at < count);
                self.writing(name, *at + 1)
            },
            (MaterializePhase::WriteFile { name, at }, MaterializeReply::Failed(e)) => {
                let dest: PathName = self.workspace(name).join(
                    self.attachments[*at].filename.as_str(),
                );
                let place: String = dest.display();
                MaterializePhase::Forget {
                    name: name.clone(),
                    result: Err(cat4("writing attachment ", place.as_str(), ": ", e.as_str())),
                }
            },
            (MaterializePhase::Describe { name }, r) => {
                let args: Vec<String> = make_describe_args(&self.attachments);
                match check_jj("jj describe: ", &args, &self.workspace(name), &r) {
                    Some(e) => MaterializePhase::Forget { name: name.clone(), result: Err(e) },
                    None => match r {
                        MaterializeReply::Ran { .. } => MaterializePhase::ReadId {
                            name: name.clone(),
                        },
                        _ => {
                            return;
                        },
                    },
                }
            },
            (MaterializePhase::ReadId { name }, r) => {
                let args: Vec<String> = make_log_args();
                match check_jj("jj log -r @: ", &args, &self.workspace(name), &r) {
                    Some(e) => MaterializePhase::Forget { name: name.clone(), result: Err(e) },
                    None => match r {
                        MaterializeReply::Ran { stdout, .. } => MaterializePhase::Forget {
                            name: name.clone(),
                            result: self.recorded(&stdout),
                        },
                        _ => {
                            return;
                        },
                    },
                }
            },
            (MaterializePhase::Forget { name, result }, MaterializeReply::Ran { .. }) => {
                MaterializePhase::Remove { name: name.clone(), result: copy_record(result) }
            },
            (MaterializePhase::Forget { name, result }, MaterializeReply::Failed(_)) => {
                MaterializePhase::Remove { name: name.clone(), result: copy_record(result) }
            },
            (MaterializePhase::Remove { name, result }, MaterializeReply::Done) => {
                MaterializePhase::Finished(copy_record(result))
            },
            (MaterializePhase::Remove { name, result }, MaterializeReply::Failed(_)) => {
                MaterializePhase::Finished(copy_record(result))
            },
            _ => {
                return;
            },
        };
        self.phase = next;
    }
}

/// A copy of the result of recording.
fn copy_record(r: &Result<MaterializedAttachment, String>) -> (c: Result<
    MaterializedAttachment,
    String,
>)
    ensures
        record_view(c) == record_view(*r),
{
    match r {
        Ok(rec) => Ok(
            MaterializedAttachment {
                commit_id: rec.commit_id.clone(),
                filenames: crate::store::copy_texts(&rec.filenames),
            },
        ),
        Err(e) => Err(e.clone()),
    }
}

} // verus!
