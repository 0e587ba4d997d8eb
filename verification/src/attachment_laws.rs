//! What holds of every recording of attachments, whatever fails.

use vstd::prelude::*;
use vstd::utf8::*;

use crate::attachment::{
    comment_text, filenames, forget_args, materialize_action, materialize_next, name_fault,
    recording, unique_text, workspace, MaterializeActionView, MaterializePhaseView,
    MaterializeReplyView, MaterializeTaskView, MaterializedView,
};
use crate::compose::{decimal_nat, decimals_read_back, joined};
use crate::encoding::lossy;
use crate::messages::AttachmentView;
use crate::pathname::{below, SLASH};
use crate::text::{after_first, before_first, trimmed};
use crate::text_laws::{blank, cutting_at_the_first, snug, trimming_takes_the_ends};

verus! {

broadcast use vstd::seq_lib::group_seq_properties;

// --- file names ----------------------------------------------------------------

proof fn high_bytes(c: u32)
    by (bit_vector)
    ensures
        0xC0u8 | ((c >> 6) & 0x1F) as u8 >= 0x80u8,
        0xE0u8 | ((c >> 12) & 0x0F) as u8 >= 0x80u8,
        0xF0u8 | ((c >> 18) & 0x7) as u8 >= 0x80u8,
        0x80u8 | (c & 0x3F) as u8 >= 0x80u8,
        0x80u8 | ((c >> 6) & 0x3F) as u8 >= 0x80u8,
        0x80u8 | ((c >> 12) & 0x3F) as u8 >= 0x80u8,
        c <= 0x7F ==> (c & 0x7F) as u8 == c,
{
}

/// The byte `/` stands for the character `/` only.
pub proof fn slash_bytes_are_slashes(s: Seq<char>)
    ensures
        encode_utf8(s).contains(SLASH) ==> s.contains('/'),
    decreases s.len(),
{
    if s.len() > 0 && encode_utf8(s).contains(SLASH) {
        let first = encode_scalar(s[0] as u32);
        let rest = encode_utf8(s.drop_first());
        slash_bytes_are_slashes(s.drop_first());
        high_bytes(s[0] as u32);
        let i = encode_utf8(s).index_of(SLASH);
        if i < first.len() {
            assert(first[i] == SLASH);
            assert(has_width_1_encoding(s[0] as u32));
            char_u32_cast(s[0], 47);
            assert(s[0] == '/');
        } else {
            assert(rest[i - first.len()] == SLASH);
            let j = s.drop_first().index_of('/');
            assert(s[j + 1] == '/');
        }
    }
}

/// True when the file that is being written, if any, is one of the attachments and
/// has a name that is neither empty nor leads elsewhere.
pub open spec fn writes_plain_names(t: MaterializeTaskView) -> bool {
    t.phase matches MaterializePhaseView::WriteFile { at, .. } ==> at < t.attachments.len()
        && name_fault(t.attachments[at as int].filename) is None
}

/// Every step keeps to plain names.
pub proof fn steps_write_plain_names(t: MaterializeTaskView, reply: MaterializeReplyView)
    requires
        writes_plain_names(t),
    ensures
        writes_plain_names(MaterializeTaskView { phase: materialize_next(t, reply), ..t }),
{
}

/// A file with a plain name is written directly into the workspace: its path is
/// the workspace's, one `/` and a name without any.
pub proof fn files_stay_in_the_workspace(t: MaterializeTaskView)
    requires
        writes_plain_names(t),
        t.phase is WriteFile,
    ensures
        materialize_action(t) matches MaterializeActionView::Write(path, data) && (t.phase matches
            MaterializePhaseView::WriteFile { name, at } && ({
            let ws = workspace(t.repo, name);
            let file = encode_utf8(t.attachments[at as int].filename);
            &&& data == t.attachments[at as int].data
            &&& !file.contains(SLASH)
            &&& path == (if ws.len() == 0 || ws.last() == SLASH {
                ws + file
            } else {
                ws.push(SLASH) + file
            })
        })),
{
    if let MaterializePhaseView::WriteFile { name, at } = t.phase {
        let filename = t.attachments[at as int].filename;
        let file = encode_utf8(filename);
        slash_bytes_are_slashes(filename);
        if file.len() > 0 {
            assert(file.contains(file[0]));
        }
    }
}

// --- cleaning up ---------------------------------------------------------------

/// True from the moment that a workspace may exist until it has been removed.
pub open spec fn has_workspace(p: MaterializePhaseView) -> bool {
    p is AddWorkspace || p is WriteFile || p is Describe || p is ReadId || p is Forget
        || p is Remove
}

/// The workspace's name, while there may be a workspace.
pub open spec fn workspace_name(p: MaterializePhaseView) -> Seq<char> {
    match p {
        MaterializePhaseView::AddWorkspace { name } => name,
        MaterializePhaseView::WriteFile { name, .. } => name,
        MaterializePhaseView::Describe { name } => name,
        MaterializePhaseView::ReadId { name } => name,
        MaterializePhaseView::Forget { name, .. } => name,
        MaterializePhaseView::Remove { name, .. } => name,
        _ => Seq::empty(),
    }
}

/// The workspace is always cleaned up. Once one may exist, whatever the replies
/// are, the recording does not end before the repository has been made to forget
/// that very workspace and its directory has been removed; and the two steps do
/// not change the result.
pub proof fn clean_up_always_follows(t: MaterializeTaskView, reply: MaterializeReplyView)
    requires
        has_workspace(t.phase),
    ensures
        ({
            let next = materialize_next(t, reply);
            &&& has_workspace(next) && workspace_name(next) == workspace_name(t.phase) || (
            t.phase is Remove && next is Finished)
            &&& next is Remove ==> t.phase is Forget || t.phase is Remove
            &&& t.phase matches MaterializePhaseView::Forget { name, result } ==> {
                &&& materialize_action(t) == (MaterializeActionView::Jj {
                    cwd: t.repo,
                    args: forget_args(name),
                })
                &&& next == t.phase || next == (MaterializePhaseView::Remove { name, result })
            }
            &&& t.phase matches MaterializePhaseView::Remove { name, result } ==> {
                &&& materialize_action(t) == MaterializeActionView::RemoveDir(
                    workspace(t.repo, name),
                )
                &&& next == t.phase || next == MaterializePhaseView::Finished(result)
            }
        }),
{
}

/// Every reply that an action can have brings the clean-up one step further.
pub proof fn clean_up_makes_progress(t: MaterializeTaskView, e: Seq<char>)
    ensures
        t.phase is Forget ==> materialize_next(t, MaterializeReplyView::Failed(e)) is Remove,
        t.phase is Remove ==> materialize_next(t, MaterializeReplyView::Failed(e)) is Finished,
        t.phase is Remove ==> materialize_next(t, MaterializeReplyView::Done) is Finished,
{
}

// --- what is recorded ----------------------------------------------------------

/// A file name is refused exactly when it is empty or has a separator of paths in
/// it.
pub proof fn which_names_are_refused(filename: Seq<char>)
    ensures
        name_fault(filename) is None <==> filename.len() > 0 && forall|i: int|
            0 <= i < filename.len() ==> #[trigger] filename[i] != '/' && filename[i] != '\\',
{
    if filename.contains('/') {
        let i = filename.index_of('/');
        assert(filename[i] == '/');
    }
    if filename.contains('\\') {
        let i = filename.index_of('\\');
        assert(filename[i] == '\\');
    }
}

/// Two workspaces have the same name only when the same process made them at the
/// same time.
pub proof fn workspace_names_differ(pid: u32, nanos: u128, other: u32, later: u128)
    ensures
        unique_text(pid, nanos) == unique_text(other, later) ==> pid == other && nanos == later,
{
    if unique_text(pid, nanos) == unique_text(other, later) {
        name_reads_back(pid, nanos);
        name_reads_back(other, later);
        decimals_read_back(pid as nat);
        decimals_read_back(nanos as nat);
        decimals_read_back(other as nat);
        decimals_read_back(later as nat);
    }
}

/// The name of a workspace is `xb-attach-`, the process, a hyphen and the time.
proof fn name_reads_back(pid: u32, nanos: u128)
    ensures
        ({
            let tail = unique_text(pid, nanos).skip(10);
            &&& before_first(tail, "-"@) == decimal_nat(pid as nat)
            &&& after_first(tail, "-"@) == Some(decimal_nat(nanos as nat))
        }),
{
    reveal_strlit("xb-attach-");
    reveal_strlit("-");
    let p = decimal_nat(pid as nat);
    let n = decimal_nat(nanos as nat);
    decimals_read_back(pid as nat);
    assert("-"@[0] == '-');
    assert forall|i: int| 0 <= i < p.len() implies !"-"@.contains(#[trigger] p[i]) by {
        assert('0' <= p[i]);
    }
    assert(unique_text(pid, nanos).skip(10) =~= p.push('-') + n);
    cutting_at_the_first(p, '-', n, "-"@);
}

/// The comment on a recording starts and ends in fixed words; between them stand the
/// names of the files, and last of all the commit.
pub proof fn the_comment_names_files_and_commit(rec: MaterializedView)
    ensures
        comment_text(rec) == "crossbridge: materialized attachment(s) ["@ + joined(
            rec.filenames,
            ", "@,
        ) + "] as commit "@ + rec.commit_id,
{
}

/// What `jj` is told, word for word. The description names every file.
pub proof fn what_jj_is_told(t: MaterializeTaskView)
    ensures
        t.phase matches MaterializePhaseView::AddWorkspace { name } ==> materialize_action(t) == (
        MaterializeActionView::Jj {
            cwd: t.repo,
            args: seq![
                "workspace"@,
                "add"@,
                "--name"@,
                name,
                decode_utf8(
                    below(below(t.repo, encode_utf8(".crossbridge-tmp"@)), encode_utf8(name)),
                ),
            ],
        }),
        t.phase matches MaterializePhaseView::Describe { name } ==> materialize_action(t) == (
        MaterializeActionView::Jj {
            cwd: below(below(t.repo, encode_utf8(".crossbridge-tmp"@)), encode_utf8(name)),
            args: seq![
                "describe"@,
                "-m"@,
                "crossbridge attachment: "@ + joined(
                    Seq::new(t.attachments.len(), |i: int| t.attachments[i].filename),
                    ", "@,
                ),
            ],
        }),
        t.phase matches MaterializePhaseView::ReadId { name } ==> materialize_action(t) == (
        MaterializeActionView::Jj {
            cwd: below(below(t.repo, encode_utf8(".crossbridge-tmp"@)), encode_utf8(name)),
            args: seq!["log"@, "-r"@, "@"@, "--no-graph"@, "-T"@, "commit_id"@],
        }),
        t.phase matches MaterializePhaseView::Forget { name, result } ==> materialize_action(t)
            == (MaterializeActionView::Jj {
            cwd: t.repo,
            args: seq!["workspace"@, "forget"@, name],
        }),
{
    assert(filenames(t.attachments) =~= Seq::new(
        t.attachments.len(),
        |i: int| t.attachments[i].filename,
    ));
}

/// A recording that nothing hinders takes its steps in this order: it looks for a
/// repository, takes a name, makes room, adds the workspace, writes the files one
/// after another, all of them, describes the commit and reads its id.
pub proof fn steps_of_a_recording(t: MaterializeTaskView, ran: MaterializeReplyView)
    requires
        ran matches MaterializeReplyView::Ran { success, .. } && success,
    ensures
        t.phase is ProbeJj ==> {
            &&& materialize_action(t) == MaterializeActionView::IsDir(
                below(t.repo, encode_utf8(".jj"@)),
            )
            &&& materialize_next(t, MaterializeReplyView::Answer(true)) is Stamp
            &&& materialize_next(t, MaterializeReplyView::Answer(false)) is ProbeGit
        },
        t.phase is ProbeGit ==> {
            &&& materialize_action(t) == MaterializeActionView::Exists(
                below(t.repo, encode_utf8(".git"@)),
            )
            &&& materialize_next(t, MaterializeReplyView::Answer(true)) is Stamp
            &&& (materialize_next(t, MaterializeReplyView::Answer(false)) matches
                MaterializePhaseView::Finished(r) && r is Err)
        },
        t.phase is Stamp ==> forall|pid: u32, nanos: u128|
            materialize_next(t, MaterializeReplyView::Stamp { pid, nanos }) == (
            MaterializePhaseView::MakeRoot { name: #[trigger] unique_text(pid, nanos) }),
        t.phase matches MaterializePhaseView::MakeRoot { name } ==> {
            &&& materialize_action(t) == MaterializeActionView::CreateDir(
                below(t.repo, encode_utf8(".crossbridge-tmp"@)),
            )
            &&& materialize_next(t, MaterializeReplyView::Done) == (
            MaterializePhaseView::ProbeOld { name })
        },
        t.phase matches MaterializePhaseView::ProbeOld { name } ==> {
            let dir = below(below(t.repo, encode_utf8(".crossbridge-tmp"@)), encode_utf8(name));
            &&& materialize_action(t) == MaterializeActionView::Exists(dir)
            &&& materialize_next(t, MaterializeReplyView::Answer(true)) == (
            MaterializePhaseView::ClearOld { name })
            &&& valid_utf8(dir) ==> materialize_next(t, MaterializeReplyView::Answer(false)) == (
            MaterializePhaseView::AddWorkspace { name })
        },
        t.phase matches MaterializePhaseView::ClearOld { name } ==> {
            let dir = below(below(t.repo, encode_utf8(".crossbridge-tmp"@)), encode_utf8(name));
            &&& materialize_action(t) == MaterializeActionView::RemoveDir(dir)
            &&& valid_utf8(dir) ==> materialize_next(t, MaterializeReplyView::Done) == (
            MaterializePhaseView::AddWorkspace { name })
        },
        t.phase matches MaterializePhaseView::AddWorkspace { name } ==> (t.attachments.len() > 0
            && name_fault(t.attachments[0].filename) is None ==> materialize_next(t, ran) == (
        MaterializePhaseView::WriteFile { name, at: 0 })),
        t.phase matches MaterializePhaseView::WriteFile { name, at } ==> {
            &&& at + 1 < t.attachments.len() && name_fault(
                t.attachments[at as int + 1].filename,
            ) is None ==> materialize_next(t, MaterializeReplyView::Done) == (
            MaterializePhaseView::WriteFile { name, at: at + 1 })
            &&& at + 1 >= t.attachments.len() ==> materialize_next(t, MaterializeReplyView::Done)
                == (MaterializePhaseView::Describe { name })
        },
        t.phase matches MaterializePhaseView::Describe { name } ==> materialize_next(t, ran) == (
        MaterializePhaseView::ReadId { name }),
{
}

/// What is recorded: the id that `jj` printed, without the white space round it, and
/// the names of all attachments in their order. Without an id nothing is recorded.
pub proof fn what_is_recorded(
    t: MaterializeTaskView,
    name: Seq<char>,
    lead: Seq<char>,
    id: Seq<char>,
    trail: Seq<char>,
    stdout: Seq<u8>,
    stderr: Seq<u8>,
)
    requires
        t.phase == (MaterializePhaseView::ReadId { name }),
        blank(lead),
        snug(id),
        blank(trail),
        lossy(stdout) == lead + id + trail,
    ensures
        materialize_next(t, MaterializeReplyView::Ran { success: true, stdout, stderr }) matches
            MaterializePhaseView::Forget { name: n, result } && n == name && (if id.len() == 0 {
            result is Err
        } else {
            result matches Ok(rec) && rec.commit_id == id && rec.filenames.len()
                == t.attachments.len() && forall|i: int|
                0 <= i < t.attachments.len() ==> #[trigger] rec.filenames[i]
                    == t.attachments[i].filename
        }),
{
    trimming_takes_the_ends(lead, id, trail);
}

/// What goes wrong is what the recording ends with: the words of the program or of
/// the system stand at the end of the failure. A bad name stops the recording before
/// its file is written.
pub proof fn failures_carry_their_cause(
    t: MaterializeTaskView,
    name: Seq<char>,
    stdout: Seq<u8>,
    stderr: Seq<u8>,
    e: Seq<char>,
)
    ensures
        t.phase == (MaterializePhaseView::AddWorkspace { name }) || t.phase == (
        MaterializePhaseView::Describe { name }) || t.phase == (
        MaterializePhaseView::ReadId { name }) ==> {
            &&& (materialize_next(
                t,
                MaterializeReplyView::Ran { success: false, stdout, stderr },
            ) matches MaterializePhaseView::Forget { result, .. } && (result matches Err(text)
                && trimmed(lossy(stderr)).is_suffix_of(text)))
            &&& (materialize_next(t, MaterializeReplyView::Failed(e)) matches
                MaterializePhaseView::Forget { result, .. } && (result matches Err(text)
                && e.is_suffix_of(text)))
        },
        t.phase is WriteFile ==> (materialize_next(t, MaterializeReplyView::Failed(e)) matches
            MaterializePhaseView::Forget { result, .. } && (result matches Err(text)
            && e.is_suffix_of(text))),
        t.phase is MakeRoot || t.phase is ClearOld ==> (materialize_next(
            t,
            MaterializeReplyView::Failed(e),
        ) matches MaterializePhaseView::Finished(result) && (result matches Err(text)
            && e.is_suffix_of(text))),
        t.phase matches MaterializePhaseView::WriteFile { at, .. } ==> (at + 1
            < t.attachments.len() && name_fault(t.attachments[at as int + 1].filename) is Some ==> (
        materialize_next(t, MaterializeReplyView::Done) matches MaterializePhaseView::Forget {
            result,
            ..
        } && result is Err)),
        t.phase is AddWorkspace && t.attachments.len() > 0 && name_fault(
            t.attachments[0].filename,
        ) is Some ==> (materialize_next(
            t,
            MaterializeReplyView::Ran { success: true, stdout, stderr },
        ) matches MaterializePhaseView::Forget { result, .. } && result is Err),
{
    let next = materialize_next(t, MaterializeReplyView::Failed(e));
    match next {
        MaterializePhaseView::Forget { result: Err(text), .. } => {
            assert(text.subrange(text.len() - e.len(), text.len() as int) =~= e);
        },
        MaterializePhaseView::Finished(Err(text)) => {
            if t.phase is MakeRoot || t.phase is ClearOld {
                assert(text.subrange(text.len() - e.len(), text.len() as int) =~= e);
            }
        },
        _ => {},
    }
    let said = trimmed(lossy(stderr));
    let gone = materialize_next(t, MaterializeReplyView::Ran { success: false, stdout, stderr });
    if let MaterializePhaseView::Forget { result: Err(text), .. } = gone {
        if t.phase is AddWorkspace || t.phase is Describe || t.phase is ReadId {
            assert(text.subrange(text.len() - said.len(), text.len() as int) =~= said);
        }
    }
}

/// A recording of nothing fails at once; any other one starts with the search for a
/// repository.
pub proof fn nothing_is_not_recorded(repo: Seq<u8>, attachments: Seq<AttachmentView>)
    ensures
        attachments.len() == 0 ==> (recording(repo, attachments).phase matches
            MaterializePhaseView::Finished(r) && r is Err),
        attachments.len() > 0 ==> recording(repo, attachments) == (MaterializeTaskView {
            repo,
            attachments,
            phase: MaterializePhaseView::ProbeJj,
        }),
{
}

} // verus!
