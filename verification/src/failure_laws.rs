//! How failures read: what was being done, where, and what came of it.

use vstd::prelude::*;
use vstd::utf8::*;

use crate::attachment::{
    materialize_action, materialize_next, recording, MaterializeActionView, MaterializePhaseView,
    MaterializeReplyView, MaterializeTaskView, MaterializedView,
};
use crate::client::{
    submit_command_next, ClientReplyView, SubmitCommandPhaseView, SubmitCommandView,
};
use crate::codec::Wire;
use crate::collect::{collect_next, CollectPhaseView, CollectTaskView};
use crate::compose::{decimal, joined};
use crate::encoding::lossy;
use crate::framing::{read_message_sync, ByteReader, Error};
use crate::handler::{
    answer_next, submit_action, submit_next, AnswerPhaseView, AnswerTaskView, SubmitActionView,
    SubmitPhaseView, SubmitReplyView, SubmitTaskView,
};
use crate::messages::{AttachmentView, NotificationView, SupervisorMessageView};
use crate::outbound::{outbound_action, outbound_next, OutboundPhaseView, OutboundTaskView};
use crate::pathname::below;
use crate::registry::{
    membership_next, MembershipPhaseView, MembershipTaskView, OutcomeView, RegistryView,
};
use crate::run::{server_next, ServerPhaseView, ServerReplyView, ServerTaskView};
use crate::slug::{slug_next, SlugPhaseView, SlugReplyView, SlugTaskView};
use crate::store::{RouteActionView, RouteOpView, StoreOpView, StoreReplyView, WriteView};
use crate::supervisor::{start_next, FoundView, StartPhaseView, StartReplyView, StartTaskView};
use crate::text::trimmed;
use crate::uplink::{
    notification_text, uplink_next, UplinkPhaseView, UplinkReplyView, UplinkTaskView,
};

verus! {

broadcast use vstd::seq_lib::group_seq_properties;

// --- requests ------------------------------------------------------------------

/// A submission that the database hinders says what it was about to do.
pub proof fn how_a_submission_fails(t: SubmitTaskView, e: Seq<char>)
    ensures
        ({
            let next = submit_next(t, SubmitReplyView::Store(StoreReplyView::Failed(e)));
            &&& t.phase is FindOpen || t.phase is FindClosed ==> next == SubmitPhaseView::Finished(
                Err("listing issues by label "@ + ("xb-ref:"@ + t.submit.source_uuid) + ": "@ + e),
            )
            &&& t.phase is Create ==> next == SubmitPhaseView::Finished(
                Err("creating local issue: "@ + e),
            )
            &&& t.phase is Label ==> next == SubmitPhaseView::Finished(
                Err("applying labels: "@ + e),
            )
        }),
{
}

/// An answer that the database hinders says what it was about to do, and with which
/// issue. So does one whose issue is gone.
pub proof fn how_an_answer_fails(t: AnswerTaskView, e: Seq<char>)
    ensures
        ({
            let next = answer_next(t, StoreReplyView::Failed(e));
            &&& t.phase is FindOpen || t.phase is FindClosed ==> next == AnswerPhaseView::Finished(
                Err("listing issues by label "@ + ("xb-ref:"@ + t.answer.source_uuid) + ": "@ + e),
            )
            &&& t.phase is Read ==> next == AnswerPhaseView::Finished(
                Err("reading comments: "@ + e),
            )
            &&& t.phase is Copy || t.phase is Swap ==> next == AnswerPhaseView::Finished(
                Err("applying answer: "@ + e),
            )
            &&& (t.phase matches AnswerPhaseView::Load { id } ==> next == AnswerPhaseView::Finished(
                Err("loading issue "@ + decimal(id as int) + ": "@ + e),
            ))
            &&& (t.phase matches AnswerPhaseView::Close { id } ==> next
                == AnswerPhaseView::Finished(
                Err("closing issue "@ + decimal(id as int) + ": "@ + e),
            ))
        }),
        t.phase matches AnswerPhaseView::Load { id } ==> answer_next(
            t,
            StoreReplyView::Found(None),
        ) == AnswerPhaseView::Finished(Err("issue "@ + decimal(id as int) + " disappeared"@)),
{
}

/// What is said of attachments, and of a request for an unknown repository, is a note.
pub proof fn remarks_are_notes(s: SubmitTaskView, o: OutboundTaskView)
    ensures
        s.phase matches SubmitPhaseView::Note { id, text } ==> submit_action(s)
            == SubmitActionView::Store(
            StoreOpView::Apply {
                writes: seq![WriteView::AddComment { id, content: text, kind: "note"@ }],
            },
        ),
        o.phase matches OutboundPhaseView::Complain { text } ==> outbound_action(o)
            == RouteActionView::Do(
            RouteOpView::Here(
                StoreOpView::Apply {
                    writes: seq![
                        WriteView::AddComment { id: o.issue.id, content: text, kind: "note"@ },
                    ],
                },
            ),
        ),
{
}

/// A command whose issue has no UUID names the issue; a delivery or an answer whose
/// other database cannot be opened names the repository.
pub proof fn how_commands_and_routing_fail(
    s: SubmitCommandView,
    o: OutboundTaskView,
    c: CollectTaskView,
    e: Seq<char>,
)
    ensures
        s.phase is Name ==> submit_command_next(
            s,
            ClientReplyView::Store(StoreReplyView::Failed(e)),
        ) == SubmitCommandPhaseView::Finished(
            Err("issue #"@ + decimal(s.issue_id as int) + " has no UUID in the local DB: "@ + e),
        ),
        o.phase matches OutboundPhaseView::Open { target, .. } ==> outbound_next(
            o,
            StoreReplyView::Failed(e),
        ) == OutboundPhaseView::Finished(Err("opening target DB for '"@ + target + "': "@ + e)),
        c.phase matches CollectPhaseView::Open { slug, .. } ==> collect_next(
            c,
            StoreReplyView::Failed(e),
        ) == CollectPhaseView::Finished(Err("opening source DB for '"@ + slug + "': "@ + e)),
{
}

// --- attachments ---------------------------------------------------------------

/// The workspace of a recording.
pub open spec fn workspace_at(repo: Seq<u8>, name: Seq<char>) -> Seq<u8> {
    below(below(repo, encode_utf8(".crossbridge-tmp"@)), encode_utf8(name))
}

/// A recording that does not get as far as `jj` says what was missing, or which
/// directory or file it could not make.
pub proof fn how_a_recording_fails(t: MaterializeTaskView, e: Seq<char>)
    ensures
        t.phase is ProbeGit ==> materialize_next(t, MaterializeReplyView::Answer(false))
            == MaterializePhaseView::Finished(
            Err(lossy(t.repo) + " is neither a jj nor a git repo"@),
        ),
        t.phase is MakeRoot ==> materialize_next(t, MaterializeReplyView::Failed(e))
            == MaterializePhaseView::Finished(
            Err("creating "@ + lossy(below(t.repo, encode_utf8(".crossbridge-tmp"@))) + ": "@ + e),
        ),
        t.phase is ClearOld ==> materialize_next(t, MaterializeReplyView::Failed(e))
            == MaterializePhaseView::Finished(Err(e)),
        t.phase matches MaterializePhaseView::WriteFile { name, at } ==> materialize_next(
            t,
            MaterializeReplyView::Failed(e),
        ) == (MaterializePhaseView::Forget {
            name,
            result: Err(
                "writing attachment "@ + lossy(
                    below(
                        workspace_at(t.repo, name),
                        encode_utf8(t.attachments[at as int].filename),
                    ),
                ) + ": "@ + e,
            ),
        }),
{
}

/// A run of `jj` that fails is reported with what it was to do, with its arguments, and
/// with the directory and what it said, or with the reason why it did not run.
pub proof fn how_jj_fails(
    t: MaterializeTaskView,
    stdout: Seq<u8>,
    stderr: Seq<u8>,
    e: Seq<char>,
    args: Seq<Seq<char>>,
    cwd: Seq<u8>,
    doing: Seq<char>,
    name: Seq<char>,
)
    requires
        ({
            ||| {
                &&& t.phase == (MaterializePhaseView::AddWorkspace { name })
                &&& doing == "jj workspace add: "@
            }
            ||| {
                &&& t.phase == (MaterializePhaseView::Describe { name })
                &&& doing == "jj describe: "@
            }
            ||| {
                &&& t.phase == (MaterializePhaseView::ReadId { name })
                &&& doing == "jj log -r @: "@
            }
        }),
        materialize_action(t) == (MaterializeActionView::Jj {
            cwd,
            args,
        }),
    ensures
        materialize_next(t, MaterializeReplyView::Failed(e)) == (MaterializePhaseView::Forget {
            name,
            result: Err(doing + ("running `jj "@ + joined(args, " "@) + "`: "@ + e)),
        }),
        materialize_next(
            t,
            (MaterializeReplyView::Ran { success: false, stdout, stderr }),
        ) == (MaterializePhaseView::Forget {
            name,
            result: Err(
                doing + ("`jj "@ + joined(args, " "@) + "` failed in "@ + (lossy(cwd) + ": "@
                    + trimmed(lossy(stderr)))),
            ),
        }),
{
}

/// Without attachments there is nothing to record, and without a commit there is no
/// record. A file needs a name, and one that stays in its directory.
pub proof fn how_a_recording_is_refused(
    repo: Seq<u8>,
    t: MaterializeTaskView,
    stdout: Seq<u8>,
    stderr: Seq<u8>,
    rest: Seq<AttachmentView>,
    first: AttachmentView,
)
    ensures
        recording(repo, Seq::empty()).phase == MaterializePhaseView::Finished(
            Err("no attachments to materialize"@),
        ),
        trimmed(lossy(stdout)).len() == 0 ==> (t.phase matches MaterializePhaseView::ReadId { name }
            ==> materialize_next(
            t,
            (MaterializeReplyView::Ran { success: true, stdout, stderr }),
        ) == (MaterializePhaseView::Forget {
            name,
            result: Err("jj log returned empty commit_id"@),
        })),
        t.attachments == seq![first] + rest && first.filename.len() == 0 ==> (
        t.phase matches MaterializePhaseView::AddWorkspace { name } ==> materialize_next(
            t,
            (MaterializeReplyView::Ran { success: true, stdout, stderr }),
        ) == (MaterializePhaseView::Forget {
            name,
            result: Err("attachment with empty filename"@),
        })),
        t.attachments == seq![first] + rest && (first.filename.contains('/')
            || first.filename.contains('\\')) ==> (
        t.phase matches MaterializePhaseView::AddWorkspace { name } ==> materialize_next(
            t,
            (MaterializeReplyView::Ran { success: true, stdout, stderr }),
        ) == (MaterializePhaseView::Forget {
            name,
            result: Err(
                "attachment filename `"@ + first.filename + "` must not contain path separators"@,
            ),
        })),
{
    if t.attachments == seq![first] + rest {
        assert(t.attachments[0] == first);
    }
}

/// A file with a name that will not do is not written, nor is any that follows it.
pub proof fn a_bad_name_ends_the_writing(t: MaterializeTaskView, name: Seq<char>, at: nat)
    requires
        t.phase == (MaterializePhaseView::WriteFile { name, at }),
        at + 1 < t.attachments.len(),
    ensures
        ({
            let filename = t.attachments[at as int + 1].filename;
            let next = materialize_next(t, MaterializeReplyView::Done);
            &&& filename.len() == 0 ==> next == (MaterializePhaseView::Forget {
                name,
                result: Err("attachment with empty filename"@),
            })
            &&& filename.contains('/') || filename.contains('\\') ==> next == (
            MaterializePhaseView::Forget {
                name,
                result: Err(
                    "attachment filename `"@ + filename + "` must not contain path separators"@,
                ),
            })
        }),
{
}

/// When all is done, or something has failed, the workspace is forgotten and removed,
/// whatever `jj` says to that, and the result stays what it was.
pub proof fn the_workspace_goes_in_the_end(
    t: MaterializeTaskView,
    name: Seq<char>,
    result: Result<MaterializedView, Seq<char>>,
    said: MaterializeReplyView,
    e: Seq<char>,
)
    requires
        said is Ran,
    ensures
        t.phase == (MaterializePhaseView::Forget { name, result }) ==> {
            &&& materialize_action(t) == (MaterializeActionView::Jj {
                cwd: t.repo,
                args: seq!["workspace"@, "forget"@, name],
            })
            &&& materialize_next(t, said) == (MaterializePhaseView::Remove { name, result })
            &&& materialize_next(t, MaterializeReplyView::Failed(e)) == (
            MaterializePhaseView::Remove { name, result })
        },
        t.phase == (MaterializePhaseView::Remove { name, result }) ==> {
            &&& materialize_action(t) == MaterializeActionView::RemoveDir(
                workspace_at(t.repo, name),
            )
            &&& materialize_next(t, MaterializeReplyView::Done) == MaterializePhaseView::Finished(
                result,
            )
            &&& materialize_next(t, MaterializeReplyView::Failed(e))
                == MaterializePhaseView::Finished(result)
        },
{
}

/// A workspace whose path is no text is not added.
pub proof fn a_workspace_needs_a_path_in_writing(t: MaterializeTaskView, name: Seq<char>)
    requires
        t.phase == (MaterializePhaseView::ProbeOld { name }) || t.phase == (
        MaterializePhaseView::ClearOld { name }),
    ensures
        ({
            let at = workspace_at(t.repo, name);
            let next = materialize_next(
                t,
                if t.phase is ProbeOld {
                    MaterializeReplyView::Answer(false)
                } else {
                    MaterializeReplyView::Done
                },
            );
            &&& valid_utf8(at) ==> next == (MaterializePhaseView::AddWorkspace { name })
            &&& !valid_utf8(at) ==> next == (MaterializePhaseView::Forget {
                name,
                result: Err("workspace path "@ + lossy(at) + " not utf-8"@),
            })
        }),
{
}

// --- the supervisor and its servers --------------------------------------------

/// A start that fails while the directory is prepared says so, and which entry or
/// directory it was; one that cannot open its socket names the socket.
pub proof fn how_a_start_fails(t: StartTaskView, e: Seq<char>)
    ensures
        ({
            let next = start_next(t, StartReplyView::Failed(e));
            &&& t.phase is List ==> next == StartPhaseView::Finished(
                Err("preparing base directory: "@ + e),
            )
            &&& (t.phase matches StartPhaseView::Wipe { path, is_dir, .. } ==> next
                == StartPhaseView::Finished(
                Err(
                    "preparing base directory: "@ + ((if is_dir {
                        "removing directory "@
                    } else {
                        "removing file "@
                    }) + lossy(path) + ": "@ + e),
                ),
            ))
            &&& t.phase is Create ==> next == StartPhaseView::Finished(
                Err("preparing base directory: "@ + ("creating "@ + lossy(t.base) + ": "@ + e)),
            )
            &&& t.phase is Bind ==> next == StartPhaseView::Finished(
                Err("binding register socket at "@ + lossy(t.socket) + ": "@ + e),
            )
        }),
        t.phase is List ==> start_next(t, StartReplyView::Listed(seq![FoundView::Unread(e)]))
            == StartPhaseView::Finished(Err("preparing base directory: "@ + e)),
{
}

/// An attempt to register that fails says at which step, and what hindered it.
pub proof fn how_an_attempt_fails(t: UplinkTaskView, e: Seq<char>, n: NotificationView)
    ensures
        ({
            let next = uplink_next(t, UplinkReplyView::Failed(e));
            let cause = if t.phase is Connect {
                "connecting to supervisor at "@ + lossy(t.socket) + ": "@ + e
            } else if t.phase is Send {
                "sending Register frame: "@ + e
            } else {
                "reading RegisterResponse frame: "@ + e
            };
            &&& (t.phase is Connect || t.phase is Send || t.phase is Receive) && t.retry ==> next
                == (UplinkTaskView { phase: UplinkPhaseView::Wait { cause }, ..t })
            &&& (t.phase is Connect || t.phase is Send || t.phase is Receive) && !t.retry ==> next
                == (UplinkTaskView { phase: UplinkPhaseView::Finished(Err(cause)), ..t })
        }),
        t.phase is Receive && !t.retry ==> uplink_next(
            t,
            UplinkReplyView::Message(SupervisorMessageView::Notification(n)),
        ).phase == UplinkPhaseView::Finished(
            Err(
                "expected RegisterResponse from supervisor, got Notification: "@
                    + notification_text(n),
            ),
        ),
{
}

/// A server that cannot open its database names it, and so does one that has none. A
/// supervisor that cannot make a server's directory tells the server so.
pub proof fn how_a_server_fails(
    t: ServerTaskView,
    reg: RegistryView,
    m: MembershipTaskView,
    e: Seq<char>,
)
    ensures
        ({
            let db = below(
                below(t.repo, encode_utf8(".crosslink"@)),
                encode_utf8("issues.db"@),
            );
            &&& t.phase is OpenDb ==> server_next(t, ServerReplyView::Failed(e)).phase
                == ServerPhaseView::Finished(
                Err("opening crosslink DB at "@ + lossy(db) + ": "@ + e),
            )
            &&& t.phase is CheckDb ==> server_next(t, ServerReplyView::Answer(false)).phase
                == ServerPhaseView::Finished(
                Err(
                    "crosslink DB not found at "@ + lossy(db) + " (run `crosslink init` in "@
                        + lossy(t.repo) + " first)"@,
                ),
            )
        }),
        m.phase is MakeDir ==> membership_next(reg, m, OutcomeView::Failed(e))
            == (MembershipPhaseView::Refuse { reason: "failed to create slug directory: "@ + e }),
{
}

/// A server's search for its slug that cannot run `jj` or `git` names the repository.
pub proof fn how_a_program_fails(t: SlugTaskView, e: Seq<char>)
    requires
        t.role is Server,
        !t.blank,
    ensures
        t.phase is AskJj ==> slug_next(t, SlugReplyView::Failed(e)) == SlugPhaseView::Finished(
            Err("running jj in "@ + lossy(t.repo) + ": "@ + e),
        ),
        t.phase is AskGit ==> slug_next(t, SlugReplyView::Failed(e)) == SlugPhaseView::Finished(
            Err("running git in "@ + lossy(t.repo) + ": "@ + e),
        ),
{
}

// --- frames --------------------------------------------------------------------

/// A stream that ends in front of a frame has ended cleanly; one that ends inside a
/// frame's header has not. Either way the words are the same.
pub proof fn how_a_stream_ends<T: Wire>(r: &mut ByteReader, m: Result<T, Error>)
    requires
        call_ensures(read_message_sync::<T>, (r,), m),
        old(r)@.len() < 4,
    ensures
        m matches Err(Error::Io(f)) && f.clean_end == (old(r)@.len() == 0) && f.text@
            == "failed to fill whole buffer"@,
{
}

} // verus!
