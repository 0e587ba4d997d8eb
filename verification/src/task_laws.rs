//! Every task keeps to its rules: what it asks for and where it goes on a reply is what
//! the laws speak of.

use vstd::prelude::*;

use crate::attachment::{
    materialize_action, materialize_next, MaterializeAction, MaterializeReply, MaterializeReplyView,
    MaterializeTask, MaterializeTaskView,
};
use crate::client::{
    answer_command_action, answer_command_next, root_action, root_next, submit_command_action,
    submit_command_next, AnswerCommand, AnswerCommandView, ClientAction, ClientReply,
    ClientReplyView, RootAction, RootTask, SubmitCommand, SubmitCommandView,
};
use crate::collect::{collect_action, collect_next, CollectTask, CollectTaskView};
use crate::config::{Config, RepoView};
use crate::handler::{
    answer_action, answer_next, submit_action, submit_next, AnswerAction, AnswerTask,
    AnswerTaskView, SubmitAction, SubmitReply, SubmitReplyView, SubmitTask, SubmitTaskView,
};
use crate::listeners::{
    add_action, add_next, set_next, AddAction, AddTask, AddTaskView, ListenerSet, ListenerSetView,
};
use crate::messages::Register;
use crate::outbound::{outbound_action, outbound_next, OutboundTask, OutboundTaskView};
use crate::registry::{
    membership_action, membership_next, registration, registry_next, Event, MembershipAction,
    MembershipPhaseView, MembershipTask, MembershipTaskView, Outcome, OutcomeView, Registry,
    RegistryView,
};
use crate::route::{
    cycle_action, cycle_next, scan_action, scan_next, CycleAction, CycleTask, ScanAction, ScanTask,
    ScanTaskView,
};
use crate::run::{
    server_action, server_next, ServerAction, ServerReply, ServerReplyView, ServerTask,
    ServerTaskView,
};
use crate::slug::{
    slug_action, slug_next, SlugAction, SlugReply, SlugReplyView, SlugTask, SlugTaskView,
};
use crate::store::{RouteAction, StoreReply, StoreReplyView};
use crate::supervisor::{
    start_action, start_next, StartAction, StartReply, StartReplyView, StartTask, StartTaskView,
};
use crate::uplink::{
    uplink_action, uplink_next, UplinkAction, UplinkReply, UplinkReplyView, UplinkTask,
    UplinkTaskView,
};

verus! {

/// A search for a slug asks for what its rules say, and goes where they say.
pub proof fn a_search_for_a_slug_keeps_to_its_rules(
    t: &mut SlugTask,
    a: SlugAction,
    reply: SlugReply,
)
    requires
        call_ensures(SlugTask::current, (&*t,), a),
        call_ensures(SlugTask::resume, (t, reply), ()),
    ensures
        a@ == slug_action(old(t)@),
        final(t)@ == (SlugTaskView { phase: slug_next(old(t)@, reply@), ..old(t)@ }),
{
}

/// A recording of attachments asks for what its rules say, and goes where they say.
pub proof fn a_recording_keeps_to_its_rules(
    t: &mut MaterializeTask,
    a: MaterializeAction,
    reply: MaterializeReply,
)
    requires
        call_ensures(MaterializeTask::current, (&*t,), a),
        call_ensures(MaterializeTask::resume, (t, reply), ()),
    ensures
        a@ == materialize_action(old(t)@),
        final(t)@ == (MaterializeTaskView { phase: materialize_next(old(t)@, reply@), ..old(t)@ }),
{
}

/// A search for a repository asks for what its rules say, and goes where they say.
pub proof fn a_search_for_a_repository_keeps_to_its_rules(
    t: &mut RootTask,
    a: RootAction,
    reply: bool,
)
    requires
        call_ensures(RootTask::current, (&*t,), a),
        call_ensures(RootTask::resume, (t, reply), ()),
    ensures
        a@ == root_action(old(t)@),
        final(t)@ == root_next(old(t)@, reply),
{
}

/// The command `submit` asks for what its rules say, and goes where they say.
pub proof fn submit_keeps_to_its_rules(
    t: SubmitCommand,
    a: ClientAction,
    reply: ClientReply,
    next: SubmitCommand,
)
    requires
        call_ensures(SubmitCommand::current, (&t,), a),
        call_ensures(SubmitCommand::resumed, (t, reply), next),
    ensures
        a@ == submit_command_action(t@),
        next@ == (SubmitCommandView { phase: submit_command_next(t@, reply@), ..t@ }),
{
}

/// The command `answer` asks for what its rules say, and goes where they say.
pub proof fn answer_keeps_to_its_rules(
    t: AnswerCommand,
    a: ClientAction,
    reply: ClientReply,
    next: AnswerCommand,
)
    requires
        call_ensures(AnswerCommand::current, (&t,), a),
        call_ensures(AnswerCommand::resumed, (t, reply), next),
    ensures
        a@ == answer_command_action(t@),
        next@ == (AnswerCommandView { phase: answer_command_next(t@, reply@), ..t@ }),
{
}

/// A submission asks for what its rules say, and goes where they say.
pub proof fn a_submission_keeps_to_its_rules(
    t: &mut SubmitTask,
    a: SubmitAction,
    reply: SubmitReply,
)
    requires
        call_ensures(SubmitTask::current, (&*t,), a),
        call_ensures(SubmitTask::resume, (t, reply), ()),
    ensures
        a@ == submit_action(old(t)@),
        final(t)@ == (SubmitTaskView { phase: submit_next(old(t)@, reply@), ..old(t)@ }),
{
}

/// An answer asks for what its rules say, and goes where they say.
pub proof fn an_answer_keeps_to_its_rules(t: &mut AnswerTask, a: AnswerAction, reply: StoreReply)
    requires
        call_ensures(AnswerTask::current, (&*t,), a),
        call_ensures(AnswerTask::resume, (t, reply), ()),
    ensures
        a@ == answer_action(old(t)@),
        final(t)@ == (AnswerTaskView { phase: answer_next(old(t)@, reply@), ..old(t)@ }),
{
}

/// A delivery asks for what its rules say, and goes where they say.
pub proof fn a_delivery_keeps_to_its_rules(t: &mut OutboundTask, a: RouteAction, reply: StoreReply)
    requires
        call_ensures(OutboundTask::current, (&*t,), a),
        call_ensures(OutboundTask::resume, (t, reply), ()),
    ensures
        a@ == outbound_action(old(t)@),
        final(t)@ == (OutboundTaskView { phase: outbound_next(old(t)@, reply@), ..old(t)@ }),
{
}

/// A collection asks for what its rules say, and goes where they say.
pub proof fn a_collection_keeps_to_its_rules(t: &mut CollectTask, a: RouteAction, reply: StoreReply)
    requires
        call_ensures(CollectTask::current, (&*t,), a),
        call_ensures(CollectTask::resume, (t, reply), ()),
    ensures
        a@ == collect_action(old(t)@),
        final(t)@ == (CollectTaskView { phase: collect_next(old(t)@, reply@), ..old(t)@ }),
{
}

/// A registration asks for what its rules say, and goes where they say.
pub proof fn a_registration_keeps_to_its_rules(
    t: &mut UplinkTask,
    a: UplinkAction,
    reply: UplinkReply,
)
    requires
        call_ensures(UplinkTask::current, (&*t,), a),
        call_ensures(UplinkTask::resume, (t, reply), ()),
    ensures
        a@ == uplink_action(old(t)@),
        final(t)@ == uplink_next(old(t)@, reply@),
{
}

/// A server asks for what its rules say, and goes where they say.
pub proof fn a_server_keeps_to_its_rules(
    t: ServerTask,
    a: ServerAction,
    reply: ServerReply,
    next: ServerTask,
)
    requires
        call_ensures(ServerTask::current, (&t,), a),
        call_ensures(ServerTask::resumed, (t, reply), next),
    ensures
        a@ == server_action(t@),
        next@ == server_next(t@, reply@),
{
}

/// The start of a supervisor asks for what its rules say, and goes where they say.
pub proof fn a_start_keeps_to_its_rules(
    t: StartTask,
    a: StartAction,
    reply: StartReply,
    next: StartTask,
)
    requires
        call_ensures(StartTask::current, (&t,), a),
        call_ensures(StartTask::resumed, (t, reply), next),
    ensures
        a@ == start_action(t@),
        next@ == (StartTaskView { phase: start_next(t@, reply@), ..t@ }),
{
}

/// A scan asks for what its rules say, and goes where they say.
pub proof fn a_scan_keeps_to_its_rules(
    t: ScanTask,
    config: Config,
    a: ScanAction,
    reply: StoreReply,
    next: ScanTask,
)
    requires
        call_ensures(ScanTask::current, (&t,), a),
        call_ensures(ScanTask::resumed, (t, &config, reply), next),
    ensures
        a@ == scan_action(t@),
        next@ == (ScanTaskView { phase: scan_next(config@, t@, reply@), ..t@ }),
{
}

/// A cycle asks for what its rules say, and goes where they say.
pub proof fn a_cycle_keeps_to_its_rules(
    t: CycleTask,
    config: Config,
    a: CycleAction,
    reply: StoreReply,
    next: CycleTask,
)
    requires
        call_ensures(CycleTask::current, (&t, &config), a),
        call_ensures(CycleTask::resumed, (t, &config, reply), next),
    ensures
        a@ == cycle_action(config@, t@),
        next@ == cycle_next(config@, t@, reply@),
{
}

/// The opening of a socket asks for what its rules say, goes where they say, and leaves
/// the set of sockets as they say.
pub proof fn an_opening_keeps_to_its_rules(
    t: &mut AddTask,
    set: &mut ListenerSet,
    a: AddAction,
    outcome: Outcome,
)
    requires
        call_ensures(AddTask::current, (&*t, &*set), a),
        call_ensures(AddTask::resume, (t, set, outcome), ()),
    ensures
        a@ == add_action(old(set)@, old(t)@),
        final(t)@ == (AddTaskView { phase: add_next(old(set)@, old(t)@, outcome@), ..old(t)@ }),
        final(set)@ == set_next(old(set)@, old(t)@, outcome@),
{
}

/// A change of membership asks for what its rules say, goes where they say, and leaves
/// the registry as they say.
pub proof fn a_membership_keeps_to_its_rules(
    t: &mut MembershipTask,
    reg: &mut Registry,
    a: MembershipAction,
    outcome: Outcome,
)
    requires
        call_ensures(MembershipTask::current, (&*t, &*reg), a),
        call_ensures(MembershipTask::resume, (t, reg, outcome), ()),
    ensures
        a@ == membership_action(old(reg)@, old(t)@),
        final(t)@ == (MembershipTaskView {
            phase: membership_next(old(reg)@, old(t)@, outcome@),
            ..old(t)@
        }),
        final(reg)@ == registry_next(old(reg)@, old(t)@, outcome@),
{
}

/// Who registers is dealt with as a registration; the registry does not change yet.
pub proof fn registrations_are_taken_up(reg: Registry, register: Register, t: MembershipTask)
    requires
        call_ensures(Registry::handle_registration, (&reg, register), t),
    ensures
        t@ == registration(reg@, register@),
{
}

/// Who has left is out of the registry at once, and no one else is. Its connection is
/// dropped next. A connection that belongs to no member changes nothing.
pub proof fn departures_are_taken_up(reg: &mut Registry, id: u64, t: MembershipTask, i: int)
    requires
        call_ensures(Registry::handle_departure, (reg, id), t),
        old(reg)@.wf(),
    ensures
        0 <= i < old(reg)@.members.len() && old(reg)@.members[i].id == id ==> {
            let m = old(reg)@.members[i];
            &&& final(reg)@.members == old(reg)@.members.remove(i)
            &&& t@.slug == m.slug
            &&& t@.group == m.group
            &&& t@.phase == (MembershipPhaseView::Forget { id })
        },
        (forall|j: int| 0 <= j < old(reg)@.members.len() ==> (#[trigger] old(reg)@.members[j]).id
            != id) ==> final(reg)@ == old(reg)@ && t@.phase == (MembershipPhaseView::Finished {
            departed: Seq::empty(),
        }),
{
    crate::registry_laws::departures_find_their_member(old(reg)@.members, id, 0);
}

/// What happens to a supervisor is a registration or a departure, and is taken up as one.
pub proof fn events_are_taken_up(reg: &mut Registry, event: Event, t: MembershipTask, i: int)
    requires
        call_ensures(Registry::handle_event, (reg, event), t),
        old(reg)@.wf(),
    ensures
        event matches Event::Registered(register) ==> final(reg)@ == old(reg)@ && t@
            == registration(old(reg)@, register@),
        event matches Event::Departed { id } ==> (0 <= i < old(reg)@.members.len()
            && old(reg)@.members[i].id == id ==> final(reg)@.members
            == old(reg)@.members.remove(i) && t@.slug == old(reg)@.members[i].slug && t@.group
            == old(reg)@.members[i].group && t@.phase == (MembershipPhaseView::Forget { id })),
        event matches Event::Departed { id } ==> ((forall|j: int|
            0 <= j < old(reg)@.members.len() ==> (#[trigger] old(reg)@.members[j]).id != id)
            ==> final(reg)@ == old(reg)@ && t@.phase == (MembershipPhaseView::Finished {
            departed: Seq::empty(),
        })),
{
    if let Event::Departed { id } = event {
        crate::registry_laws::departures_find_their_member(old(reg)@.members, id, 0);
    }
}

/// A request, a command or a search that has ended stays ended, with the same result,
/// whatever is replied.
pub proof fn what_has_ended_stays_ended(
    slug: SlugTaskView,
    found: SlugReplyView,
    rec: MaterializeTaskView,
    made: MaterializeReplyView,
    submit: SubmitTaskView,
    submitted: SubmitReplyView,
    answer: AnswerTaskView,
    stored: StoreReplyView,
    asking: SubmitCommandView,
    telling: AnswerCommandView,
    got: ClientReplyView,
)
    ensures
        slug.phase is Finished ==> slug_next(slug, found) == slug.phase,
        rec.phase is Finished ==> materialize_next(rec, made) == rec.phase,
        submit.phase is Finished ==> submit_next(submit, submitted) == submit.phase,
        answer.phase is Finished ==> answer_next(answer, stored) == answer.phase,
        asking.phase is Finished ==> submit_command_next(asking, got) == asking.phase,
        telling.phase is Finished ==> answer_command_next(telling, got) == telling.phase,
{
}

/// So does a delivery, the way back of an answer, a scan, and what a supervisor and its
/// servers do.
pub proof fn what_was_routed_stays_routed(
    repos: Seq<RepoView>,
    out: OutboundTaskView,
    back: CollectTaskView,
    scan: ScanTaskView,
    stored: StoreReplyView,
    start: StartTaskView,
    started: StartReplyView,
    uplink: UplinkTaskView,
    linked: UplinkReplyView,
    set: ListenerSetView,
    add: AddTaskView,
    reg: RegistryView,
    member: MembershipTaskView,
    outcome: OutcomeView,
    server: ServerTaskView,
    served: ServerReplyView,
)
    ensures
        out.phase is Finished ==> outbound_next(out, stored) == out.phase,
        back.phase is Finished ==> collect_next(back, stored) == back.phase,
        scan.phase is Finished ==> scan_next(repos, scan, stored) == scan.phase,
        start.phase is Finished ==> start_next(start, started) == start.phase,
        uplink.phase is Finished ==> uplink_next(uplink, linked) == uplink,
        add.phase is Finished ==> add_next(set, add, outcome) == add.phase && set_next(
            set,
            add,
            outcome,
        ) == set,
        member.phase is Finished ==> membership_next(reg, member, outcome) == member.phase
            && registry_next(reg, member, outcome) == reg,
        server.phase is Finished ==> server_next(server, served) == server,
{
}

/// While a command waits for its peer, no word of the database moves it.
pub proof fn a_waiting_command_heeds_its_peer(
    asking: SubmitCommandView,
    telling: AnswerCommandView,
    stored: StoreReplyView,
)
    ensures
        asking.phase is Probe || asking.phase is Send ==> submit_command_next(
            asking,
            ClientReplyView::Store(stored),
        ) == asking.phase,
        telling.phase is Probe || telling.phase is Send ==> answer_command_next(
            telling,
            ClientReplyView::Store(stored),
        ) == telling.phase,
{
}

} // verus!
