//! What holds of the registry, whoever comes and goes.

use vstd::prelude::*;

use crate::messages::{NotificationView, RegisterResponseView, SupervisorMessageView};
use crate::registry::{
    ids, member_from, membership_action, membership_next, news, of_group, registry_next, slugs,
    telling, MemberView, MembershipActionView, MembershipPhaseView, MembershipTaskView,
    OutcomeView, RegistryView,
};

verus! {

broadcast use vstd::seq_lib::group_seq_properties;

// --- order ---------------------------------------------------------------------

/// True when the task can run on the registry: the server that it registers is not
/// there yet, and neither is its connection's number.
pub open spec fn applies(reg: RegistryView, t: MembershipTaskView) -> bool {
    match t.phase {
        MembershipPhaseView::MakeDir | MembershipPhaseView::Greet => !reg.is_taken(t.slug, t.group),
        MembershipPhaseView::Keep { id } => {
            &&& !reg.is_taken(t.slug, t.group)
            &&& id < reg.next_id
            &&& forall|i: int| 0 <= i < reg.members.len() ==> (#[trigger] reg.members[i]).id != id
        },
        _ => true,
    }
}

/// Every step of a registration or a departure keeps the registry in order: no
/// connection number and, within a group, no slug is there twice.
pub proof fn steps_keep_order(reg: RegistryView, t: MembershipTaskView, outcome: OutcomeView)
    requires
        reg.wf(),
        applies(reg, t),
        reg.next_id < u64::MAX,
    ensures
        registry_next(reg, t, outcome).wf(),
        applies(
            registry_next(reg, t, outcome),
            MembershipTaskView { phase: membership_next(reg, t, outcome), ..t },
        ),
{
    let after = registry_next(reg, t, outcome);
    if let MembershipPhaseView::Keep { id } = t.phase {
        let new = MemberView { id, slug: t.slug, group: t.group };
        assert(after.members == reg.members.push(new));
    } else {
        assert(after.members == reg.members);
        if t.phase is MakeDir || t.phase is Greet {
            assert(!after.is_taken(t.slug, t.group)) by {
                if after.is_taken(t.slug, t.group) {
                    let i = choose|i: int|
                        0 <= i < after.members.len() && (#[trigger] after.members[i]).slug == t.slug
                            && after.members[i].group == t.group;
                    assert(reg.members[i].slug == t.slug);
                }
            }
        }
    }
}

/// The members of a group are the members that belong to it.
pub proof fn of_group_members(members: Seq<MemberView>, group: Seq<char>, m: MemberView)
    ensures
        of_group(members, group).contains(m) <==> (members.contains(m) && m.group == group),
    decreases members.len(),
{
    if members.len() > 0 {
        let init = members.drop_last();
        let last = members.last();
        let front = of_group(init, group);
        of_group_members(init, group, m);
        assert(members.contains(m) <==> (init.contains(m) || m == last)) by {
            if init.contains(m) {
                assert(members[init.index_of(m)] == m);
            }
            assert(members[members.len() - 1] == last);
            if members.contains(m) && m != last {
                assert(init[members.index_of(m)] == m);
            }
        }
        assert(front.push(last).contains(m) <==> (front.contains(m) || m == last)) by {
            if front.contains(m) {
                assert(front.push(last)[front.index_of(m)] == m);
            }
            assert(front.push(last)[front.len() as int] == last);
        }
    }
}

// --- what the members know -----------------------------------------------------

/// What each server knows: by connection, the slugs of the peers it has been told
/// of.
pub type Knowledge = Map<u64, Set<Seq<char>>>;

/// What is known after an action was carried out. The server that registers has
/// the connection number `newcomer`.
pub open spec fn learned(k: Knowledge, action: MembershipActionView, newcomer: u64) -> Knowledge {
    match action {
        MembershipActionView::Respond(
            SupervisorMessageView::RegisterResponse(RegisterResponseView::Ack { peers }),
        ) => k.insert(newcomer, peers.to_set()),
        MembershipActionView::Notify(
            id,
            SupervisorMessageView::Notification(NotificationView::PeerJoined { slug }),
        ) => k.insert(id, k[id].insert(slug)),
        MembershipActionView::Notify(
            id,
            SupervisorMessageView::Notification(NotificationView::PeerLeft { slug }),
        ) => k.insert(id, k[id].remove(slug)),
        _ => k,
    }
}

/// The slugs of the other members of a member's group.
pub open spec fn peers_of(reg: RegistryView, m: MemberView) -> Set<Seq<char>> {
    Set::new(
        |slug: Seq<char>|
            exists|i: int|
                0 <= i < reg.members.len() && (#[trigger] reg.members[i]).slug == slug
                    && reg.members[i].group == m.group && reg.members[i].id != m.id,
    )
}

/// True when every member, except those whose connection has failed, knows exactly
/// the other members of its group.
pub open spec fn all_informed(reg: RegistryView, k: Knowledge, failed: Set<u64>) -> bool {
    forall|i: int|
        0 <= i < reg.members.len() && !failed.contains((#[trigger] reg.members[i]).id)
            ==> k[reg.members[i].id] =~= peers_of(reg, reg.members[i])
}

/// Tells the targets from position `at` on, where exactly the connections in `ok`
/// can be reached: what is known afterwards.
pub open spec fn told(
    k: Knowledge,
    targets: Seq<u64>,
    at: nat,
    joined: bool,
    slug: Seq<char>,
    ok: Set<u64>,
) -> Knowledge
    decreases targets.len() - at,
{
    if at >= targets.len() {
        k
    } else {
        let id = targets[at as int];
        let k2 = if ok.contains(id) {
            learned(k, MembershipActionView::Notify(id, news(joined, slug)), 0)
        } else {
            k
        };
        told(k2, targets, at + 1, joined, slug, ok)
    }
}

/// What telling does to the knowledge of one connection.
#[verifier::spinoff_prover]
proof fn told_changes(
    k: Knowledge,
    targets: Seq<u64>,
    at: nat,
    joined: bool,
    slug: Seq<char>,
    ok: Set<u64>,
    id: u64,
)
    requires
        at <= targets.len(),
    ensures
        told(k, targets, at, joined, slug, ok)[id] =~= (if ok.contains(id) && targets.skip(
            at as int,
        ).contains(id) {
            if joined {
                k[id].insert(slug)
            } else {
                k[id].remove(slug)
            }
        } else {
            k[id]
        }),
    decreases targets.len() - at,
{
    if at < targets.len() {
        let first = targets[at as int];
        let rest = targets.skip(at as int);
        let behind = targets.skip(at as int + 1);
        assert(rest[0] == first);
        assert(rest.contains(id) <==> (id == first || behind.contains(id))) by {
            if behind.contains(id) {
                assert(rest[behind.index_of(id) + 1] == id);
            }
            if rest.contains(id) && id != first {
                assert(behind[rest.index_of(id) - 1] == id);
            }
        }
        let k2 = if ok.contains(first) {
            learned(k, MembershipActionView::Notify(first, news(joined, slug)), 0)
        } else {
            k
        };
        let change = |known: Set<Seq<char>>|
            if joined {
                known.insert(slug)
            } else {
                known.remove(slug)
            };
        assert(k2[id] == (if id == first && ok.contains(first) {
            change(k[id])
        } else {
            k[id]
        }));
        assert(change(change(k[id])) =~= change(k[id]));
        told_changes(k2, targets, at + 1, joined, slug, ok, id);
    }
}

/// Those of the targets from position `at` on that cannot be reached, behind
/// `failed`.
pub open spec fn missed(targets: Seq<u64>, at: nat, failed: Seq<u64>, ok: Set<u64>) -> Seq<u64>
    decreases targets.len() - at,
{
    if at >= targets.len() {
        failed
    } else {
        let id = targets[at as int];
        missed(
            targets,
            at + 1,
            if ok.contains(id) {
                failed
            } else {
                failed.push(id)
            },
            ok,
        )
    }
}

proof fn missed_members(targets: Seq<u64>, at: nat, failed: Seq<u64>, ok: Set<u64>, id: u64)
    requires
        at <= targets.len(),
    ensures
        missed(targets, at, failed, ok).contains(id) <==> (failed.contains(id) || (
        !ok.contains(id) && targets.skip(at as int).contains(id))),
    decreases targets.len() - at,
{
    if at < targets.len() {
        let first = targets[at as int];
        let rest = targets.skip(at as int);
        let behind = targets.skip(at as int + 1);
        assert(rest[0] == first);
        assert(rest.contains(id) <==> (id == first || behind.contains(id))) by {
            if behind.contains(id) {
                assert(rest[behind.index_of(id) + 1] == id);
            }
            if rest.contains(id) && id != first {
                assert(behind[rest.index_of(id) - 1] == id);
            }
        }
        let more = if ok.contains(first) {
            failed
        } else {
            failed.push(first)
        };
        assert(failed.push(first).contains(id) <==> (failed.contains(id) || id == first)) by {
            if failed.contains(id) {
                assert(failed.push(first)[failed.index_of(id)] == id);
            }
            assert(failed.push(first)[failed.len() as int] == first);
        }
        missed_members(targets, at + 1, more, ok, id);
    }
}

/// A task carried on for at most `fuel` actions. Every action succeeds, except
/// sending to connections that are not in `ok`.
pub open spec fn membership_run(
    reg: RegistryView,
    t: MembershipTaskView,
    k: Knowledge,
    newcomer: u64,
    ok: Set<u64>,
    fuel: nat,
) -> (RegistryView, MembershipTaskView, Knowledge)
    decreases fuel,
{
    let action = membership_action(reg, t);
    if fuel == 0 || action is Finish {
        (reg, t, k)
    } else {
        let reached = match action {
            MembershipActionView::Notify(id, _) => ok.contains(id),
            _ => true,
        };
        let outcome = if reached {
            OutcomeView::Done
        } else {
            OutcomeView::Failed(Seq::empty())
        };
        membership_run(
            registry_next(reg, t, outcome),
            MembershipTaskView { phase: membership_next(reg, t, outcome), ..t },
            if reached {
                learned(k, action, newcomer)
            } else {
                k
            },
            newcomer,
            ok,
            (fuel - 1) as nat,
        )
    }
}

/// Telling the group comes to its end with everyone told who can be reached.
proof fn run_tells_all(
    reg: RegistryView,
    t: MembershipTaskView,
    k: Knowledge,
    newcomer: u64,
    ok: Set<u64>,
    fuel: nat,
)
    requires
        t.phase matches MembershipPhaseView::Tell { targets, at, .. } && at <= targets.len() && fuel
            >= targets.len() - at,
    ensures
        t.phase matches MembershipPhaseView::Tell { joined, targets, at, failed } && (
        membership_run(reg, t, k, newcomer, ok, fuel) == (
            reg,
            MembershipTaskView {
                phase: MembershipPhaseView::Tell {
                    joined,
                    targets,
                    at: targets.len(),
                    failed: missed(targets, at, failed, ok),
                },
                ..t
            },
            told(k, targets, at, joined, t.slug, ok),
        )),
    decreases fuel,
{
    if let MembershipPhaseView::Tell { joined, targets, at, failed } = t.phase {
        if at < targets.len() {
            let id = targets[at as int];
            let action = membership_action(reg, t);
            let outcome = if ok.contains(id) {
                OutcomeView::Done
            } else {
                OutcomeView::Failed(Seq::empty())
            };
            let t2 = MembershipTaskView { phase: membership_next(reg, t, outcome), ..t };
            let k2 = if ok.contains(id) {
                learned(k, action, newcomer)
            } else {
                k
            };
            run_tells_all(reg, t2, k2, newcomer, ok, (fuel - 1) as nat);
        }
    }
}

/// The connections of a group are those of the members that belong to it.
proof fn group_connections(members: Seq<MemberView>, group: Seq<char>, id: u64)
    ensures
        ids(of_group(members, group)).contains(id) <==> exists|i: int|
            0 <= i < members.len() && (#[trigger] members[i]).id == id && members[i].group == group,
{
    let part = of_group(members, group);
    if ids(part).contains(id) {
        let j = ids(part).index_of(id);
        assert(part.contains(part[j]));
        of_group_members(members, group, part[j]);
        let i = members.index_of(part[j]);
        assert(members[i].id == id && members[i].group == group);
    }
    if exists|i: int|
        0 <= i < members.len() && (#[trigger] members[i]).id == id && members[i].group == group {
        let i = choose|i: int|
            0 <= i < members.len() && (#[trigger] members[i]).id == id && members[i].group == group;
        assert(members.contains(members[i]));
        of_group_members(members, group, members[i]);
        let j = part.index_of(members[i]);
        assert(ids(part)[j] == id);
    }
}

/// The slugs of a group are those of the members that belong to it.
proof fn group_names(members: Seq<MemberView>, group: Seq<char>, slug: Seq<char>)
    ensures
        slugs(of_group(members, group)).contains(slug) <==> exists|i: int|
            0 <= i < members.len() && (#[trigger] members[i]).slug == slug && members[i].group
                == group,
{
    let part = of_group(members, group);
    if slugs(part).contains(slug) {
        let j = slugs(part).index_of(slug);
        assert(part.contains(part[j]));
        of_group_members(members, group, part[j]);
        let i = members.index_of(part[j]);
        assert(members[i].slug == slug && members[i].group == group);
    }
    if exists|i: int|
        0 <= i < members.len() && (#[trigger] members[i]).slug == slug && members[i].group
            == group {
        let i = choose|i: int|
            0 <= i < members.len() && (#[trigger] members[i]).slug == slug && members[i].group
                == group;
        assert(members.contains(members[i]));
        of_group_members(members, group, members[i]);
        let j = part.index_of(members[i]);
        assert(slugs(part)[j] == slug);
    }
}

/// A registration keeps everyone informed. The server is a member afterwards, it
/// has been told the slugs of exactly its group, and every member of the group has
/// been told of it; members of other groups have been told nothing. Those that
/// could not be told are handed back as departed.
pub proof fn registration_informs(
    reg: RegistryView,
    k: Knowledge,
    failed: Set<u64>,
    slug: Seq<char>,
    group: Seq<char>,
    ok: Set<u64>,
)
    requires
        reg.wf(),
        reg.next_id < u64::MAX,
        !reg.is_taken(slug, group),
        all_informed(reg, k, failed),
    ensures
        ({
            let t = MembershipTaskView { slug, group, phase: MembershipPhaseView::MakeDir };
            let fuel = 3 + of_group(reg.members, group).len();
            let (reg2, t2, k2) = membership_run(reg, t, k, reg.next_id, ok, fuel);
            &&& reg2 == (RegistryView {
                next_id: (reg.next_id + 1) as u64,
                members: reg.members.push(MemberView { id: reg.next_id, slug, group }),
                ..reg
            })
            &&& membership_action(reg2, t2) matches MembershipActionView::Finish(departed)
                && all_informed(reg2, k2, failed.union(departed.to_set())) && forall|id: u64|
                #![trigger departed.contains(id)]
                departed.contains(id) <==> (!ok.contains(id) && ids(
                    of_group(reg.members, group),
                ).contains(id))
        }),
{
    let t = MembershipTaskView { slug, group, phase: MembershipPhaseView::MakeDir };
    let part = of_group(reg.members, group);
    let targets = ids(part);
    let fuel = 3 + part.len();
    let id = reg.next_id;
    let k1 = k.insert(id, slugs(part).to_set());
    let reg1 = RegistryView { next_id: (id + 1) as u64, ..reg };
    let new = MemberView { id, slug, group };
    let reg2 = RegistryView { members: reg.members.push(new), ..reg1 };
    let told_task = MembershipTaskView { slug, group, phase: telling(true, targets) };
    reveal_with_fuel(membership_run, 4);
    assert(membership_run(reg, t, k, id, ok, fuel) == membership_run(
        reg2,
        told_task,
        k1,
        id,
        ok,
        part.len(),
    ));
    run_tells_all(reg2, told_task, k1, id, ok, part.len());
    let departed = missed(targets, 0, Seq::empty(), ok);
    let k2 = told(k1, targets, 0, true, slug, ok);
    let gone = failed.union(departed.to_set());
    assert(targets.skip(0) == targets);
    assert forall|x: u64| #![trigger departed.contains(x)] departed.contains(x) <==> (!ok.contains(x)
        && targets.contains(x)) by {
        missed_members(targets, 0, Seq::empty(), ok, x);
    }
    assert forall|i: int|
        0 <= i < reg2.members.len() && !gone.contains(
            (#[trigger] reg2.members[i]).id,
        ) implies k2[reg2.members[i].id] =~= peers_of(reg2, reg2.members[i]) by {
        let m = reg2.members[i];
        told_changes(k1, targets, 0, true, slug, ok, m.id);
        group_connections(reg.members, group, m.id);
        if i == reg.members.len() {
            assert(!targets.contains(id));
            assert forall|x: Seq<char>| #[trigger] k2[id].contains(x) == peers_of(
                reg2,
                m,
            ).contains(x) by {
                group_names(reg.members, group, x);
                assert(k2[id] == slugs(part).to_set());
                if exists|j: int|
                    0 <= j < reg.members.len() && (#[trigger] reg.members[j]).slug == x
                        && reg.members[j].group == group {
                    let j = choose|j: int|
                        0 <= j < reg.members.len() && (#[trigger] reg.members[j]).slug == x
                            && reg.members[j].group == group;
                    assert(reg2.members[j] == reg.members[j]);
                }
                if peers_of(reg2, m).contains(x) {
                    let j = choose|j: int|
                        0 <= j < reg2.members.len() && (#[trigger] reg2.members[j]).slug == x
                            && reg2.members[j].group == m.group && reg2.members[j].id != m.id;
                    assert(reg.members[j] == reg2.members[j]);
                }
            }
        } else {
            let old_m = reg.members[i];
            assert(m == old_m);
            assert(!failed.contains(m.id));
            assert(k[m.id] =~= peers_of(reg, m));
            assert(k1[m.id] == k[m.id]);
            if m.group == group {
                assert(targets.contains(m.id));
                if !ok.contains(m.id) {
                    assert(departed.contains(m.id));
                    assert(departed.to_set().contains(m.id));
                }
            } else {
                if targets.contains(m.id) {
                    let j = choose|j: int|
                        0 <= j < reg.members.len() && (#[trigger] reg.members[j]).id == m.id
                            && reg.members[j].group == group;
                    assert(reg.members[i].id == reg.members[j].id && i != j);
                }
            }
            assert forall|x: Seq<char>| #[trigger] k2[m.id].contains(x) == peers_of(
                reg2,
                m,
            ).contains(x) by {
                if peers_of(reg, m).contains(x) {
                    let j = choose|j: int|
                        0 <= j < reg.members.len() && (#[trigger] reg.members[j]).slug == x
                            && reg.members[j].group == m.group && reg.members[j].id != m.id;
                    assert(reg2.members[j] == reg.members[j]);
                }
                if peers_of(reg2, m).contains(x) {
                    let j = choose|j: int|
                        0 <= j < reg2.members.len() && (#[trigger] reg2.members[j]).slug == x
                            && reg2.members[j].group == m.group && reg2.members[j].id != m.id;
                    if j < reg.members.len() {
                        assert(reg.members[j] == reg2.members[j]);
                    }
                }
                if m.group == group && x == slug {
                    assert(reg2.members[reg.members.len() as int] == new);
                }
            }
        }
    }
}

/// A departure keeps everyone informed. Once a member has been removed, every
/// member that is left in its group is told, and nobody else; those that could not
/// be told are handed back as departed.
pub proof fn departure_informs(
    reg: RegistryView,
    k: Knowledge,
    failed: Set<u64>,
    i: int,
    ok: Set<u64>,
)
    requires
        reg.wf(),
        0 <= i < reg.members.len(),
        all_informed(reg, k, failed),
    ensures
        ({
            let m = reg.members[i];
            let left = RegistryView { members: reg.members.remove(i), ..reg };
            let t = MembershipTaskView {
                slug: m.slug,
                group: m.group,
                phase: MembershipPhaseView::Forget { id: m.id },
            };
            let fuel = 2 + of_group(left.members, m.group).len();
            let (reg2, t2, k2) = membership_run(left, t, k, m.id, ok, fuel);
            &&& reg2 == left
            &&& membership_action(reg2, t2) matches MembershipActionView::Finish(departed)
                && all_informed(left, k2, failed.union(departed.to_set())) && forall|id: u64|
                #![trigger departed.contains(id)]
                departed.contains(id) <==> (!ok.contains(id) && ids(
                    of_group(left.members, m.group),
                ).contains(id))
        }),
{
    let gone_m = reg.members[i];
    let left = RegistryView { members: reg.members.remove(i), ..reg };
    let slug = gone_m.slug;
    let group = gone_m.group;
    let t = MembershipTaskView {
        slug,
        group,
        phase: MembershipPhaseView::Forget { id: gone_m.id },
    };
    let part = of_group(left.members, group);
    let targets = ids(part);
    let told_task = MembershipTaskView { slug, group, phase: telling(false, targets) };
    reveal_with_fuel(membership_run, 3);
    assert(membership_run(left, t, k, gone_m.id, ok, 2 + part.len()) == membership_run(
        left,
        told_task,
        k,
        gone_m.id,
        ok,
        part.len(),
    ));
    run_tells_all(left, told_task, k, gone_m.id, ok, part.len());
    let departed = missed(targets, 0, Seq::empty(), ok);
    let k2 = told(k, targets, 0, false, slug, ok);
    let gone = failed.union(departed.to_set());
    assert(targets.skip(0) == targets);
    assert forall|x: u64| #![trigger departed.contains(x)] departed.contains(x) <==> (!ok.contains(x)
        && targets.contains(x)) by {
        missed_members(targets, 0, Seq::empty(), ok, x);
    }
    assert forall|j: int|
        0 <= j < left.members.len() && !gone.contains(
            (#[trigger] left.members[j]).id,
        ) implies k2[left.members[j].id] =~= peers_of(left, left.members[j]) by {
        let m = left.members[j];
        let at = if j < i {
            j
        } else {
            j + 1
        };
        assert(reg.members[at] == m);
        told_changes(k, targets, 0, false, slug, ok, m.id);
        group_connections(left.members, group, m.id);
        assert(!failed.contains(m.id));
        assert(k[m.id] =~= peers_of(reg, m));
        if m.group == group {
            assert(targets.contains(m.id));
            if !ok.contains(m.id) {
                assert(departed.contains(m.id));
                assert(departed.to_set().contains(m.id));
            }
        } else if targets.contains(m.id) {
            let p = choose|p: int|
                0 <= p < left.members.len() && (#[trigger] left.members[p]).id == m.id
                    && left.members[p].group == group;
            let q = if p < i {
                p
            } else {
                p + 1
            };
            assert(reg.members[q] == left.members[p]);
            assert(q != at);
        }
        assert forall|x: Seq<char>| #[trigger] k2[m.id].contains(x) == peers_of(left, m).contains(
            x,
        ) by {
            if peers_of(left, m).contains(x) {
                let p = choose|p: int|
                    0 <= p < left.members.len() && (#[trigger] left.members[p]).slug == x
                        && left.members[p].group == m.group && left.members[p].id != m.id;
                let q = if p < i {
                    p
                } else {
                    p + 1
                };
                assert(reg.members[q] == left.members[p]);
                assert(q != i);
                assert(peers_of(reg, m).contains(x));
                if m.group == group && x == slug {
                    assert(reg.members[q].slug != reg.members[i].slug);
                }
            }
            if peers_of(reg, m).contains(x) && !(m.group == group && x == slug) {
                let q = choose|q: int|
                    0 <= q < reg.members.len() && (#[trigger] reg.members[q]).slug == x
                        && reg.members[q].group == m.group && reg.members[q].id != m.id;
                assert(q != i);
                let p = if q < i {
                    q
                } else {
                    q - 1
                };
                assert(left.members[p] == reg.members[q]);
            }
        }
    }
}

/// The member that a connection belongs to is found, and only that one.
pub proof fn departures_find_their_member(members: Seq<MemberView>, id: u64, from: int)
    requires
        0 <= from <= members.len(),
    ensures
        match member_from(members, id, from) {
            Some(i) => from <= i < members.len() && members[i].id == id,
            None => forall|i: int| from <= i < members.len() ==> (#[trigger] members[i]).id != id,
        },
    decreases members.len() - from,
{
    if from < members.len() && members[from].id != id {
        departures_find_their_member(members, id, from + 1);
    }
}

/// A refused server leaves no trace: the registry is what it was, and nobody but
/// the refused server is told anything.
pub proof fn refusal_changes_nothing(
    reg: RegistryView,
    slug: Seq<char>,
    group: Seq<char>,
    reason: Seq<char>,
    k: Knowledge,
    ok: Set<u64>,
    fuel: nat,
)
    requires
        fuel >= 1,
    ensures
        ({
            let t = MembershipTaskView {
                slug,
                group,
                phase: MembershipPhaseView::Refuse { reason },
            };
            membership_action(reg, t) == MembershipActionView::Respond(
                SupervisorMessageView::RegisterResponse(RegisterResponseView::Nack { reason }),
            ) && membership_run(reg, t, k, reg.next_id, ok, fuel) == (
                reg,
                MembershipTaskView {
                    phase: MembershipPhaseView::Finished { departed: Seq::empty() },
                    ..t
                },
                k,
            )
        }),
{
    reveal_with_fuel(membership_run, 3);
}

} // verus!
