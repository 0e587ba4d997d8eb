//! What the functions of the library return, in terms of what they were given.

use vstd::prelude::*;
use vstd::utf8::*;

use crate::attachment::{
    check_filename, format_comment, materialize, tmp_root, unique_name, MaterializeTask,
    MaterializedAttachment,
};
use crate::client::{answer_cmd, repo_root_from, submit_cmd, AnswerCommand, RootTask, SubmitCommand};
use crate::codec::Wire;
use crate::collect::{collect_single_answer, CollectTask};
use crate::compose::{decimal_nat, joined, views};
use crate::config::{Complaint, Config, Presence, RepoConfig, RepoEntry};
use crate::framing::{
    announced_len, check_incoming_len, decode, encode, encode_frame, ended_after, read_message_sync,
    write_message_sync, ByteReader, Error,
};
use crate::handler::{
    handle_answer, handle_connection, handle_submit, response_failure, response_to, AnswerTask,
    Dispatch, SubmitTask,
};
use crate::labels::{find_prefixed, has, ref_label};
use crate::listeners::{position, position_is, AddTask, Listener, ListenerSet, ListenerView};
use crate::messages::{
    Attachment, ClientRequest, ClientRequestView, Notification, ServerResponse, ServerResponseView,
    SubmitAnswer, SubmitIssue, SupervisorMessage, SupervisorMessageView,
};
use crate::order::precedes;
use crate::outbound::{route_single_outbound, OutboundTask};
use crate::pathname::{anchor, below, is_component, parent_of_below, tidy_end, PathName};
use crate::paths::{
    default_socket_root, is_default_root, own_slug_from_env, resolve_register_socket,
    resolve_runtime_root, runtime_root_from_socket, socket_dir, socket_root, target_socket,
    SocketLayout,
};
use crate::peers::{list_peers, EntryView, Listing};
use crate::registry::Registry;
use crate::route::{collect_answered, route_outbound, run_cycle, CycleTask, ScanTask};
use crate::run::{ServerConfig, ServerTask};
use crate::slug::{
    derive_from_repo, derive_own_slug, find_origin, parse_origin_url, parse_slug, resolve_own_slug,
    resolve_slug, Role, SlugPhaseView, SlugTask,
};
use crate::slug_laws::{
    a_client_takes_the_last_name, a_repository_goes_by_its_name, flag_then_variable_then_repository,
    has_path, line_says, the_first_origin_counts,
};
use crate::store::Issue;
use crate::supervisor::{StartPhaseView, StartTask};
use crate::text::white_space;
use crate::text_laws::{blank, free_of, snug};
use crate::uplink::{
    connect_and_register, connect_and_register_with_backoff, next_backoff, read_notification,
    UplinkTask,
};

verus! {

broadcast use vstd::seq_lib::group_seq_properties;

// --- slugs ---------------------------------------------------------------------

/// A repository goes by the name that its URL ends with, dots and all, without `.git`:
/// a client and a server find the same.
pub proof fn parsing_gives_the_name(
    url: &str,
    c: Option<String>,
    s: Option<String>,
    lead: Seq<char>,
    front: Seq<char>,
    name: Seq<char>,
    trail: Seq<char>,
)
    requires
        call_ensures(parse_origin_url, (url,), c),
        call_ensures(parse_slug, (url,), s),
        blank(lead),
        blank(trail),
        front.len() > 0 ==> !white_space(front[0]),
        front.len() > 0 ==> front[front.len() - 1] == '/' || (front[front.len() - 1] == ':'
            && free_of(front.drop_last(), ":"@)),
        free_of(front, "?#"@),
        has_path(front),
        name.len() > 0,
        snug(name),
        free_of(name, "/:?#"@),
    ensures
        url@ == lead + (front + name + ".git"@) + trail ==> (c matches Some(x) && x@ == name) && (
        s matches Some(x) && x@ == name),
        url@ == lead + (front + name) + trail && !".git"@.is_suffix_of(name) ==> (c matches Some(x)
            && x@ == name) && (s matches Some(x) && x@ == name),
{
    a_repository_goes_by_its_name(lead, front, name, trail);
}

/// What follows the last `/` or `:` is the client's slug, whatever else the URL holds;
/// where nothing follows, there is none.
pub proof fn a_client_parses_the_last_name(
    url: &str,
    c: Option<String>,
    lead: Seq<char>,
    front: Seq<char>,
    name: Seq<char>,
    trail: Seq<char>,
)
    requires
        call_ensures(parse_origin_url, (url,), c),
        blank(lead),
        blank(trail),
        front.len() > 0 ==> "/:"@.contains(front[front.len() - 1]) && !white_space(front[0]),
        front.len() == 0 && name.len() > 0 ==> !white_space(name[0]),
        free_of(name, "/:"@),
        has_path(front),
    ensures
        url@ == lead + (front + name + ".git"@) + trail ==> (if name.len() > 0 {
            c matches Some(x) && x@ == name
        } else {
            c is None
        }),
        url@ == lead + (front + name) + trail && !".git"@.is_suffix_of(name) && snug(name) ==> (
        if name.len() > 0 {
            c matches Some(x) && x@ == name
        } else {
            c is None
        }),
{
    a_client_takes_the_last_name(lead, front, name, trail);
}

/// A flag that says something is the slug, for a client and for a server.
pub proof fn a_flag_is_the_slug<F: Fn(&str) -> Option<Vec<u8>>>(
    flag: &str,
    lookup: F,
    repo: PathName,
    c: SlugTask,
    s: SlugTask,
    lead: Seq<char>,
    slug: Seq<char>,
    trail: Seq<char>,
)
    requires
        call_ensures(resolve_own_slug::<F>, (Some(flag), lookup, repo), c),
        call_ensures(resolve_slug::<F>, (Some(flag), lookup, repo), s),
        flag@ == lead + slug + trail,
        blank(lead),
        snug(slug),
        blank(trail),
        slug.len() > 0,
    ensures
        c@.phase == SlugPhaseView::Finished(Ok(slug)),
        s@.phase == SlugPhaseView::Finished(Ok(slug)),
{
    flag_then_variable_then_repository(lead, slug, trail, None);
    let raw = choose|raw: Option<Vec<u8>>|
        #![trigger crate::paths::opt_bytes(raw)]
        c@.phase == crate::slug::client_start(Some(flag@), crate::paths::opt_bytes(raw));
    flag_then_variable_then_repository(lead, slug, trail, crate::paths::opt_bytes(raw));
    let raw2 = choose|raw: Option<Vec<u8>>|
        #![trigger crate::paths::opt_bytes(raw)]
        s@.phase == crate::slug::server_start(Some(flag@), crate::paths::opt_bytes(raw));
    flag_then_variable_then_repository(lead, slug, trail, crate::paths::opt_bytes(raw2));
}

// --- paths ---------------------------------------------------------------------

/// A flag counts before the environment, and is taken as it stands.
pub proof fn a_flag_counts_as_it_stands<F: Fn(&str) -> Option<Vec<u8>>>(
    p: PathName,
    lookup: F,
    root: PathName,
    socket: PathName,
)
    requires
        call_ensures(resolve_runtime_root::<F>, (Some(&p), lookup), root),
        call_ensures(resolve_register_socket::<F>, (Some(&p), lookup), socket),
    ensures
        root@ == p@,
        socket@ == p@,
{
}

/// Without a flag all three programs take the same root, and the register socket is
/// `register.socket` below it.
pub proof fn all_take_the_same_root<F: Fn(&str) -> Option<Vec<u8>>>(
    lookup: F,
    server: PathName,
    client: PathName,
    plain: PathName,
    socket: PathName,
)
    requires
        call_ensures(resolve_runtime_root::<F>, (None::<&PathName>, lookup), server),
        call_ensures(socket_root::<F>, (lookup,), client),
        call_ensures(default_socket_root::<F>, (lookup,), plain),
        call_ensures(resolve_register_socket::<F>, (None::<&PathName>, lookup), socket),
    ensures
        is_default_root(lookup, server@),
        is_default_root(lookup, client@),
        is_default_root(lookup, plain@),
        exists|root: Seq<u8>| #[trigger]
            is_default_root(lookup, root) && socket@ == below(
                root,
                encode_utf8("register.socket"@),
            ),
{
}

/// The socket at which a server listens for a client is the one at which the client
/// looks for the server.
pub proof fn client_and_server_meet(
    layout: SocketLayout,
    root: PathName,
    peer: &str,
    own: &str,
    listened: PathName,
    called: PathName,
    dir: PathName,
)
    requires
        layout@ == root@,
        call_ensures(SocketLayout::listener_socket, (&layout, peer, own), listened),
        call_ensures(target_socket, (&root, peer, own), called),
        call_ensures(socket_dir, (&root, peer), dir),
    ensures
        listened@ == called@,
        called@ == below(dir@, encode_utf8(own@ + ".socket"@)),
        dir@ == below(root@, encode_utf8(peer@)),
{
}

/// The register socket lies in the root of the sockets, and so does every peer's
/// directory.
pub proof fn a_layout_lies_below_its_root(
    root: PathName,
    peer: &str,
    layout: SocketLayout,
    kept: &PathName,
    register: PathName,
    dir: PathName,
)
    requires
        call_ensures(SocketLayout::new, (root,), layout),
        call_ensures(SocketLayout::root, (&layout,), kept),
        call_ensures(SocketLayout::register_socket, (&layout,), register),
        call_ensures(SocketLayout::peer_dir, (&layout, peer), dir),
    ensures
        kept@ == root@,
        register@ == below(root@, encode_utf8("register.socket"@)),
        dir@ == below(root@, encode_utf8(peer@)),
{
}

/// The root that a register socket belongs to is the directory that holds it.
pub proof fn the_root_holds_the_socket(
    socket: PathName,
    root: PathName,
    base: Seq<u8>,
    name: Seq<u8>,
)
    requires
        call_ensures(runtime_root_from_socket, (&socket,), root),
        socket@ == below(base, name),
        is_component(name),
    ensures
        root@ == tidy_end(base, anchor(base)),
{
    parent_of_below(base, name);
}

// --- labels --------------------------------------------------------------------

/// A marker is found exactly when one of the labels is the marker.
pub proof fn markers_are_whole_labels(labels: &[String], marker: &str, r: bool)
    requires
        call_ensures(has, (labels, marker), r),
    ensures
        r <==> exists|i: int| 0 <= i < labels@.len() && (#[trigger] labels@[i])@ == marker@,
{
    let all = views(labels@);
    if all.contains(marker@) {
        let i = all.index_of(marker@);
        assert(labels@[i]@ == marker@);
    }
    if exists|i: int| 0 <= i < labels@.len() && (#[trigger] labels@[i])@ == marker@ {
        let i = choose|i: int| 0 <= i < labels@.len() && (#[trigger] labels@[i])@ == marker@;
        assert(all[i] == marker@);
    }
}

/// A reference is found again in its own label.
pub proof fn references_read_back(
    value: &str,
    label: String,
    labels: &[String],
    r: Option<&str>,
)
    requires
        call_ensures(ref_label, (value,), label),
        labels@ =~= seq![label],
        call_ensures(find_prefixed, (labels, "xb-ref:"), r),
    ensures
        label@ == "xb-ref:"@ + value@,
        r matches Some(v) && v@ == value@,
{
    assert(views(labels@) =~= Seq::empty().push("xb-ref:"@ + value@) + Seq::empty());
    crate::labels::the_first_label_counts(Seq::empty(), value@, Seq::empty(), "xb-ref:"@);
}

// --- peers ---------------------------------------------------------------------

/// A client's peers come in alphabetical order, each of them a server that has its
/// socket in the directory, and none of these is missing. Without the directory the
/// client is not registered.
pub proof fn peers_are_the_sockets(
    dir: PathName,
    listing: Listing,
    r: Result<Vec<String>, String>,
    slug: Seq<char>,
)
    requires
        call_ensures(list_peers, (&dir, listing), r),
    ensures
        listing is NotFound ==> (r matches Err(e) && e@
            == "not registered with crossbridge (no socket dir)"@),
        listing matches Listing::Failed(cause) ==> (r matches Err(e) && cause@.is_suffix_of(e@)),
        r matches Ok(peers) ==> {
            &&& forall|i: int, j: int|
                0 <= i < j < peers@.len() ==> !precedes(
                    (#[trigger] peers@[j])@,
                    (#[trigger] peers@[i])@,
                )
            &&& listing matches Listing::Entries(entries) && (views(peers@).contains(slug)
                <==> slug.len() > 0 && views(entries@).contains(
                EntryView::Name(encode_utf8(slug + ".socket"@)),
            ))
        },
{
    if let Listing::Failed(cause) = listing {
        if let Err(e) = r {
            let n = e@.len() - cause@.len();
            assert(e@.subrange(n, e@.len() as int) =~= cause@);
        }
    }
    if let Ok(peers) = r {
        if let Listing::Entries(entries) = listing {
            let all = views(peers@);
            let named = crate::peers::peers_among(views(entries@));
            crate::peers::exactly_the_listening_servers_are_listed(views(entries@), slug);
            all.to_multiset_ensures();
            named.to_multiset_ensures();
            assert(all.contains(slug) <==> all.to_multiset().count(slug) > 0);
            assert(named.contains(slug) <==> named.to_multiset().count(slug) > 0);
            assert forall|i: int, j: int| 0 <= i < j < peers@.len() implies !precedes(
                (#[trigger] peers@[j])@,
                (#[trigger] peers@[i])@,
            ) by {
                assert(all[i] == peers@[i]@ && all[j] == peers@[j]@);
            }
        }
    }
}

// --- messages and frames -------------------------------------------------------

/// A message is encoded, alone and in a frame, exactly when it takes no more than
/// sixteen mebibytes; what was encoded is decoded to the same message.
pub proof fn what_was_encoded_is_decoded<T: Wire>(
    msg: T,
    r: Result<Vec<u8>, Error>,
    framed: Result<Vec<u8>, Error>,
    bytes: &[u8],
    back: Result<T, Error>,
)
    requires
        call_ensures(encode::<T>, (&msg,), r),
        call_ensures(encode_frame::<T>, (&msg,), framed),
        call_ensures(decode::<T>, (bytes,), back),
    ensures
        r is Ok <==> T::wire(msg@).len() <= 16777216,
        framed is Ok <==> r is Ok,
        r matches Ok(payload) ==> (framed matches Ok(f) && f@.skip(4) == payload@ && f@.len()
            == payload@.len() + 4),
        r matches Ok(payload) ==> (bytes@ == payload@ ==> (back matches Ok(m) && m@ == msg@)),
{
    T::read_back(msg@, Seq::empty());
    assert(T::wire(msg@) + Seq::<u8>::empty() =~= T::wire(msg@));
    if let Ok(f) = framed {
        assert(f@.skip(4) =~= T::wire(msg@));
    }
}

/// A length is refused exactly when it is above sixteen mebibytes; the refusal tells
/// both.
pub proof fn which_lengths_are_refused(
    len: usize,
    r: Result<(), Error>,
    header: &[u8],
    a: Result<usize, Error>,
)
    requires
        call_ensures(check_incoming_len, (len,), r),
        header@.len() == 4,
        call_ensures(announced_len, (header,), a),
    ensures
        r is Ok <==> len <= 16777216,
        r matches Err(e) ==> (e matches Error::FrameTooLarge { size, max } && size == len && max
            == 16777216),
        ({
            let n = header@[0] * 0x1_00_00_00 + header@[1] * 0x1_00_00 + header@[2] * 0x1_00
                + header@[3];
            &&& a is Ok <==> n <= 16777216
            &&& a matches Ok(got) ==> got == n
        }),
{
}

/// An end before the first byte is a clean one, any other end is not.
pub proof fn which_ends_are_clean(count: usize, text: &str, e: Error)
    requires
        call_ensures(ended_after, (count, text), e),
    ensures
        e matches Error::Io(f) && f.text@ == text@ && (f.clean_end <==> count == 0),
{
}

/// How failures read.
pub proof fn how_failures_read(e: Error, r: String, written: String)
    requires
        call_ensures(Error::text, (&e,), r),
        call_ensures(response_failure, (&e,), written),
    ensures
        e matches Error::Io(f) ==> r@ == "io error: "@ + f.text@ && written@
            == "writing response frame: "@ + ("io error: "@ + f.text@),
        e matches Error::FrameTooLarge { size, max } ==> r@ == "frame too large: "@ + decimal_nat(
            size as nat,
        ) + " bytes (max "@ + decimal_nat(max as nat) + ")"@,
        e is Postcard ==> "postcard error: "@.is_prefix_of(r@),
{
}

// --- requests ------------------------------------------------------------------

/// The response to a request is its result: the issue, or the failure as it is.
pub proof fn responses_tell_the_outcome(outcome: Result<i64, String>, r: ServerResponse)
    requires
        call_ensures(response_to, (outcome,), r),
    ensures
        outcome matches Ok(id) ==> r@ == (ServerResponseView::Success { issue_id: id }),
        outcome matches Err(e) ==> r@ == (ServerResponseView::Error { message: e@ }),
{
}

/// A submission is carried out in the repository of the server, an answer in the name
/// of the peer whose socket it came in by; what is no request is answered with an
/// error.
pub proof fn requests_are_dispatched(
    read: Result<ClientRequest, Error>,
    peer: &str,
    repo: PathName,
    d: Dispatch,
)
    requires
        call_ensures(handle_connection, (read, peer, &repo), d),
    ensures
        read matches Ok(request) ==> (request@ matches ClientRequestView::Submit(s) ==> (
        d matches Dispatch::Submit(t) && t@.submit == s && t@.repo == repo@
            && t@.phase is FindOpen)),
        read matches Ok(request) ==> (request@ matches ClientRequestView::Answer(a) ==> (
        d matches Dispatch::Answer(t) && t@.answer == a && t@.peer == peer@
            && t@.phase is FindOpen)),
        read matches Err(Error::Io(f)) ==> (d matches Dispatch::Reply(
            ServerResponse::Error { message },
        ) && message@ == "malformed request: "@ + ("io error: "@ + f.text@)),
        read is Err ==> (d matches Dispatch::Reply(ServerResponse::Error { message })
            && "malformed request: "@.is_prefix_of(message@)),
{
    if read is Err {
        if let Dispatch::Reply(ServerResponse::Error { message }) = d {
            let p = "malformed request: "@;
            assert(message@.subrange(0, p.len() as int) =~= p);
        }
    }
}

/// A submission and an answer start with the search for the issue that carries their
/// reference.
pub proof fn requests_start_with_a_search(
    submit: SubmitIssue,
    repo: PathName,
    s: SubmitTask,
    peer: &str,
    answer: SubmitAnswer,
    a: AnswerTask,
)
    requires
        call_ensures(handle_submit, (submit, repo), s),
        call_ensures(handle_answer, (peer, answer), a),
    ensures
        s@.submit == submit@,
        s@.repo == repo@,
        s@.phase is FindOpen,
        a@.peer == peer@,
        a@.answer == answer@,
        a@.phase is FindOpen,
{
}

/// The commands start with the issue that was named, and keep to the root, the slug and
/// the target that they were given.
pub proof fn commands_start_with_the_issue(
    root: PathName,
    own: String,
    id: i64,
    target: String,
    s: SubmitCommand,
    a: AnswerCommand,
)
    requires
        call_ensures(submit_cmd, (root, own, id, target), s),
        call_ensures(answer_cmd, (root, own, id), a),
    ensures
        s@.root == root@ && s@.own == own@ && s@.issue_id == id && s@.target == target@
            && s@.phase is Load,
        a@.root == root@ && a@.own == own@ && a@.issue_id == id && a@.phase is Load,
{
}

// --- the supervisor's words ----------------------------------------------------

/// A notification is what the supervisor said; the end of the stream in front of a
/// message is none; anything else is a failure.
pub proof fn what_the_supervisor_said(
    read: Result<SupervisorMessage, Error>,
    r: Result<Option<Notification>, String>,
)
    requires
        call_ensures(read_notification, (read,), r),
    ensures
        read matches Ok(m) ==> (m@ matches SupervisorMessageView::Notification(n) ==> (r matches Ok(
            got,
        ) && (got matches Some(x) && x@ == n))),
        read matches Ok(m) ==> (m@ is RegisterResponse ==> r is Err),
        read matches Err(Error::Io(f)) ==> (f.clean_end ==> (r matches Ok(got) && got is None)) && (
        !f.clean_end ==> (r matches Err(e) && e@ == "reading notification: "@ + ("io error: "@
            + f.text@))),
        read matches Err(e) ==> (!(e is Io) ==> r is Err),
{
}

/// A wait is followed by one twice as long, up to a minute.
pub proof fn waits_double(secs: u64, r: u64)
    requires
        call_ensures(next_backoff, (secs,), r),
    ensures
        secs <= 30 ==> r == 2 * secs,
        secs > 30 ==> r == 60,
{
}

// --- attachments ---------------------------------------------------------------

/// The comment on a recording and the name of a workspace, in full.
pub proof fn how_attachments_are_named(
    rec: MaterializedAttachment,
    comment: String,
    pid: u32,
    nanos: u128,
    name: String,
)
    requires
        call_ensures(format_comment, (&rec,), comment),
        call_ensures(unique_name, (pid, nanos), name),
    ensures
        comment@ == "crossbridge: materialized attachment(s) ["@ + joined(
            views(rec.filenames@),
            ", "@,
        ) + "] as commit "@ + rec.commit_id@,
        name@ == "xb-attach-"@ + decimal_nat(pid as nat) + "-"@ + decimal_nat(nanos as nat),
{
}

// --- the polling bridge --------------------------------------------------------

/// A configuration needs a repository. It knows each by the last path that was given
/// for its slug, and lists the slugs in alphabetical order, each once.
pub proof fn a_configuration_keeps_the_last(
    entries: Vec<RepoEntry>,
    r: Result<Config, String>,
    k: int,
    slug: &str,
    got: Option<&RepoConfig>,
)
    requires
        call_ensures(Config::load, (entries,), r),
        r matches Ok(config) ==> call_ensures(Config::get, (&config, slug), got),
    ensures
        r is Ok <==> entries@.len() > 0,
        r matches Err(e) ==> e@ == "config has no repos defined"@,
        r is Ok && 0 <= k < entries@.len() && entries@[k].slug@ == slug@ && (forall|j: int|
            k < j < entries@.len() ==> (#[trigger] entries@[j]).slug@ != slug@) ==> (got matches
            Some(repo) && repo.path@ == entries@[k].repo.path@),
        r is Ok && (forall|j: int|
            0 <= j < entries@.len() ==> (#[trigger] entries@[j]).slug@ != slug@) ==> got is None,
        r matches Ok(config) ==> forall|i: int, j: int|
            0 <= i < j < config@.len() ==> precedes(
                (#[trigger] config@[i]).slug,
                (#[trigger] config@[j]).slug,
            ),
{
    let all = views(entries@);
    if let Ok(config) = r {
        if 0 <= k < entries@.len() && entries@[k].slug@ == slug@ && (forall|j: int|
            k < j < entries@.len() ==> (#[trigger] entries@[j]).slug@ != slug@) {
            let back = all.skip(k + 1);
            assert(all =~= all.take(k).push(all[k]) + back);
            assert forall|i: int| 0 <= i < back.len() implies (#[trigger] back[i]).slug
                != all[k].slug by {
                assert(back[i] == entries@[k + 1 + i]@);
                assert(entries@[k + 1 + i].slug@ != slug@);
            }
            crate::config::the_last_entry_counts(all.take(k), all[k], back);
        }
        if forall|j: int| 0 <= j < entries@.len() ==> (#[trigger] entries@[j]).slug@ != slug@ {
            let known = crate::config::slugs_of(all);
            crate::config::path_of_known(all, slug@);
            if known.contains(slug@) {
                let j = known.index_of(slug@);
                assert(entries@[j].slug@ == slug@);
            }
        }
        let slugs = crate::config::slugs_of(config@);
        assert forall|i: int, j: int| 0 <= i < j < config@.len() implies precedes(
            (#[trigger] config@[i]).slug,
            (#[trigger] config@[j]).slug,
        ) by {
            assert(slugs[i] == config@[i].slug && slugs[j] == config@[j].slug);
        }
    }
}

/// A configuration hands out the repositories that it lists.
pub proof fn a_configuration_hands_out_its_list(
    config: Config,
    n: usize,
    i: usize,
    entry: &RepoEntry,
    slugs: Vec<String>,
)
    requires
        i < config@.len(),
        call_ensures(Config::len, (&config,), n),
        call_ensures(Config::entry, (&config, i), entry),
        call_ensures(Config::repo_slugs, (&config,), slugs),
    ensures
        n == slugs@.len(),
        entry.slug@ == slugs@[i as int]@,
        entry@ == config@[i as int],
{
    let listed = crate::config::slugs_of(config@);
    assert(views(slugs@).len() == listed.len());
    assert(views(slugs@)[i as int] == listed[i as int]);
}

/// Scans and cycles start with the list of issues and with the first repository.
pub proof fn scans_start_with_a_list(
    slug: &str,
    out: ScanTask,
    back: ScanTask,
    cycle: CycleTask,
)
    requires
        call_ensures(route_outbound, (slug,), out),
        call_ensures(collect_answered, (slug,), back),
        call_ensures(run_cycle, (), cycle),
    ensures
        out@.outbound && out@.slug == slug@ && out@.phase is List,
        !back@.outbound && back@.slug == slug@ && back@.phase is List,
        cycle@.at == 0 && cycle@.phase is Open,
{
}

// --- starting ------------------------------------------------------------------

/// A supervisor empties the directory that holds its socket, and no other; a socket in
/// no directory is refused.
pub proof fn a_supervisor_keeps_to_its_directory(
    socket: PathName,
    t: StartTask,
    base: Seq<u8>,
    name: Seq<u8>,
)
    requires
        call_ensures(crate::supervisor::run, (socket,), t),
        is_component(name),
    ensures
        t@.socket == socket@,
        socket@ == below(base, name) ==> t@.base == tidy_end(base, anchor(base))
            && t@.phase is List,
        socket@ == seq![47u8] || socket@.len() == 0 ==> (t@.phase matches StartPhaseView::Finished(
            r,
        ) && r is Err),
{
    parent_of_below(base, name);
    if socket@.len() == 0 {
        assert(socket@ =~= Seq::<u8>::empty());
    }
}

// --- more of paths -------------------------------------------------------------

/// Joining puts a name below a path, and the parent of what was joined is the path
/// again, without void components at its end.
pub proof fn joined_paths_have_their_parent(
    p: PathName,
    child: &str,
    joined: PathName,
    parent: Option<PathName>,
)
    requires
        call_ensures(PathName::join, (&p, child), joined),
        call_ensures(PathName::parent, (&joined,), parent),
    ensures
        joined@ == below(p@, encode_utf8(child@)),
        is_component(encode_utf8(child@)) ==> (parent matches Some(q) && q@ == tidy_end(
            p@,
            anchor(p@),
        )),
{
    if is_component(encode_utf8(child@)) {
        parent_of_below(p@, encode_utf8(child@));
    }
}

/// A path is the bytes of its text, and reads as its text.
pub proof fn paths_read_as_written(text: &str, p: PathName, shown: String)
    requires
        call_ensures(PathName::from_text, (text,), p),
        call_ensures(PathName::display, (&p,), shown),
    ensures
        p@ == encode_utf8(text@),
        shown@ == text@,
{
    encode_utf8_valid_utf8(text@);
    encode_utf8_decode_utf8(text@);
}

/// The slug that the environment gives is the text of the variable
/// `CROSSBRIDGE_OWN_SLUG` without the white space round it.
pub proof fn the_environment_gives_its_text<F: Fn(&str) -> Option<Vec<u8>>>(
    lookup: F,
    r: Option<String>,
    lead: Seq<char>,
    slug: Seq<char>,
    trail: Seq<char>,
)
    requires
        call_ensures(own_slug_from_env::<F>, (lookup,), r),
        blank(lead),
        snug(slug),
        blank(trail),
    ensures
        (forall|a: Option<Vec<u8>>| #[trigger]
            lookup.ensures(("CROSSBRIDGE_OWN_SLUG",), a) ==> crate::paths::opt_bytes(a) == Some(
                encode_utf8(lead + slug + trail),
            )) ==> (if slug.len() > 0 {
            r matches Some(s) && s@ == slug
        } else {
            r is None
        }),
        (forall|a: Option<Vec<u8>>| #[trigger]
            lookup.ensures(("CROSSBRIDGE_OWN_SLUG",), a) ==> a is None) ==> r is None,
{
    crate::paths::the_variable_gives_its_text(lead, slug, trail, Seq::empty());
    let raw = choose|raw: Option<Vec<u8>>|
        #![trigger crate::paths::opt_bytes(raw)]
        lookup.ensures(("CROSSBRIDGE_OWN_SLUG",), raw) && (match r {
            Some(s) => crate::paths::own_slug_of(crate::paths::opt_bytes(raw)) == Some(s@),
            None => crate::paths::own_slug_of(crate::paths::opt_bytes(raw)) is None,
        });
    assert(lookup.ensures(("CROSSBRIDGE_OWN_SLUG",), raw));
}

/// The remote `origin` is found where the list's first line names it, and is searched
/// in the rest otherwise.
pub proof fn the_list_is_read_from_the_top(
    role: Role,
    list: &str,
    r: Option<String>,
    line: Seq<char>,
    rest: Seq<char>,
)
    requires
        call_ensures(find_origin, (role, list), r),
        free_of(line, "\n"@),
    ensures
        list@ == line ==> (match line_says(role, line) {
            Some(url) => r matches Some(u) && u@ == url,
            None => r is None,
        }),
        list@ == line + "\n"@ + rest ==> (match line_says(role, line) {
            Some(url) => r matches Some(u) && u@ == url,
            None => match crate::slug::listed_origin(role, rest) {
                Some(url) => r matches Some(u) && u@ == url,
                None => r is None,
            },
        }),
{
    the_first_origin_counts(role, line, rest);
}

/// A derivation starts with the search for a `.jj` directory, and passes over no flag.
pub proof fn derivations_start_in_the_repository(repo: PathName, c: SlugTask, s: SlugTask)
    requires
        call_ensures(derive_own_slug, (repo,), c),
        call_ensures(derive_from_repo, (repo,), s),
    ensures
        c@.role is Client && c@.repo == repo@ && !c@.blank && c@.phase is ProbeJj,
        s@.role is Server && s@.repo == repo@ && !s@.blank && s@.phase is ProbeJj,
{
}

// --- more of frames ------------------------------------------------------------

/// What was written into a stream is read from it, and the stream goes on behind it.
pub proof fn what_was_written_is_read<T: Wire>(
    w: &mut Vec<u8>,
    msg: T,
    r: Result<(), Error>,
    stream: &mut ByteReader,
    tail: Seq<u8>,
    m: Result<T, Error>,
)
    requires
        call_ensures(write_message_sync::<T>, (w, &msg), r),
        r is Ok,
        old(stream)@ == final(w)@.skip(old(w)@.len() as int) + tail,
        call_ensures(read_message_sync::<T>, (stream,), m),
    ensures
        m matches Ok(got) && got@ == msg@,
        final(stream)@ == tail,
        final(w)@.take(old(w)@.len() as int) == old(w)@,
{
    let n = old(w)@.len() as int;
    let f = crate::framing::frame(T::wire(msg@));
    assert(final(w)@.skip(n) =~= f);
    assert(final(w)@.take(n) =~= old(w)@);
    crate::framing::frame_read_back::<T>(msg@, tail);
}

// --- more of attachments -------------------------------------------------------

/// A file name passes exactly when it is not empty and has no separator of paths in it.
pub proof fn which_names_pass(filename: String, r: Option<String>)
    requires
        call_ensures(check_filename, (&filename,), r),
    ensures
        r is None <==> filename@.len() > 0 && forall|i: int|
            0 <= i < filename@.len() ==> #[trigger] filename@[i] != '/' && filename@[i] != '\\',
{
    crate::attachment_laws::which_names_are_refused(filename@);
}

/// Workspaces lie below `.crossbridge-tmp` in the repository; a recording starts from
/// what it was given.
pub proof fn where_attachments_go(
    repo: PathName,
    dir: PathName,
    attachments: Vec<Attachment>,
    t: MaterializeTask,
)
    requires
        call_ensures(tmp_root, (&repo,), dir),
        call_ensures(materialize, (repo, attachments), t),
    ensures
        dir@ == below(repo@, encode_utf8(".crossbridge-tmp"@)),
        t@ == crate::attachment::recording(repo@, views(attachments@)),
{
}

// --- more of the polling bridge ------------------------------------------------

/// The slugs of a configuration come in the order of its repositories; a complaint is
/// made of what is missing; and the database of a repository lies below its path.
pub proof fn what_a_configuration_says(
    config: Config,
    slugs: Vec<String>,
    found: Vec<Presence>,
    complaints: Vec<Complaint>,
    repo: RepoConfig,
    db: PathName,
)
    requires
        call_ensures(Config::repo_slugs, (&config,), slugs),
        call_ensures(Config::validate, (&config, &found), complaints),
        call_ensures(RepoConfig::db_path, (&repo,), db),
    ensures
        slugs@.len() == config@.len(),
        forall|i: int| 0 <= i < slugs@.len() ==> (#[trigger] slugs@[i])@ == config@[i].slug,
        views(complaints@) == crate::config::complaints(config@, found@),
        db@ == below(below(repo.path@, encode_utf8(".crosslink"@)), encode_utf8("issues.db"@)),
{
    let all = views(slugs@);
    assert(all.len() == slugs@.len());
    assert forall|i: int| 0 <= i < slugs@.len() implies (#[trigger] slugs@[i])@
        == config@[i].slug by {
        assert(all[i] == slugs@[i]@);
    }
}

/// A delivery and a collection start where the labels lead.
pub proof fn routing_starts_with_the_labels(
    slug: &str,
    config: Config,
    issue: Issue,
    labels: Vec<String>,
    o: OutboundTask,
    id: i64,
    c: CollectTask,
)
    requires
        call_ensures(route_single_outbound, (slug, &config, issue, labels), o),
        call_ensures(collect_single_answer, (slug, &config, id, &labels), c),
    ensures
        o@.source_slug == slug@ && o@.issue == issue@ && o@.labels == views(labels@),
        o@.phase == crate::outbound::outbound_start(config@, issue@, views(labels@)),
        c@.this_slug == slug@ && c@.id == id,
        c@.phase == crate::collect::collect_start(config@, id, views(labels@)),
{
}

// --- servers and the supervisor ------------------------------------------------

/// A server starts without sockets, with its own slug, group, root and repository, and
/// looks for its database first.
pub proof fn a_server_starts_empty(cfg: ServerConfig, t: ServerTask, db: PathName)
    requires
        call_ensures(crate::run::run, (cfg,), t),
        call_ensures(ServerConfig::db_path, (&cfg,), db),
    ensures
        t@.slug == cfg.slug@ && t@.group == cfg.group@ && t@.repo == cfg.repo_path@,
        t@.set.own_slug == cfg.slug@ && t@.set.root == cfg.layout@ && t@.set.entries.len() == 0,
        t@.phase is CheckDb,
        db@ == below(
            below(cfg.repo_path@, encode_utf8(".crosslink"@)),
            encode_utf8("issues.db"@),
        ),
{
}

/// A registration starts with the connection; with backoff it is tried again, without
/// it is not.
pub proof fn a_registration_starts_with_the_connection(
    socket: PathName,
    slug: String,
    group: String,
    once: UplinkTask,
    again: UplinkTask,
)
    requires
        call_ensures(connect_and_register, (socket, slug, group), once),
        call_ensures(connect_and_register_with_backoff, (socket, slug, group), again),
    ensures
        once@.socket == socket@ && once@.slug == slug@ && once@.group == group@ && !once@.retry
            && once@.phase is Connect,
        again@.socket == socket@ && again@.slug == slug@ && again@.group == group@ && again@.retry
            && again@.backoff == 1 && again@.phase is Connect,
{
}

/// A set of sockets starts empty; taking a peer out hands back its socket and leaves the
/// others; clearing hands all of them back, in their order.
pub proof fn sets_of_sockets(
    own: String,
    layout: SocketLayout,
    fresh: ListenerSet,
    set: &mut ListenerSet,
    peer: &str,
    taken: Option<Listener>,
    other: &mut ListenerSet,
    all: Vec<Listener>,
    n: usize,
    empty: bool,
    opening: AddTask,
)
    requires
        call_ensures(ListenerSet::new, (own, layout), fresh),
        call_ensures(ListenerSet::remove, (set, peer), taken),
        call_ensures(ListenerSet::clear, (other,), all),
        call_ensures(ListenerSet::len, (&fresh,), n),
        call_ensures(ListenerSet::is_empty, (&fresh,), empty),
        call_ensures(ListenerSet::add, (&fresh, peer), opening),
    ensures
        fresh@.own_slug == own@ && fresh@.root == layout@ && n == 0 && empty,
        opening@.peer == peer@ && opening@.phase is MakeDir,
        taken matches Some(l) ==> l@.peer == peer@ && old(set)@.entries.contains(l@)
            && final(set)@.entries.len() + 1 == old(set)@.entries.len(),
        taken is None ==> final(set)@ == old(set)@ && forall|i: int|
            0 <= i < old(set)@.entries.len() ==> (#[trigger] old(set)@.entries[i]).peer != peer@,
        forall|l: ListenerView|
            l.peer != peer@ ==> (#[trigger] final(set)@.entries.contains(l)
                <==> old(set)@.entries.contains(l)),
        views(all@) == old(other)@.entries && final(other)@.entries.len() == 0,
{
    let was = old(set)@.entries;
    let now = final(set)@.entries;
    position_is(was, peer@, 0);
    if let Some(i) = position(was, peer@, 0) {
        assert(was.contains(was[i]));
        assert forall|l: ListenerView| l.peer != peer@ implies (#[trigger] now.contains(l)
            <==> was.contains(l)) by {
            if was.contains(l) {
                let k = was.index_of(l);
                let j = if k < i {
                    k
                } else {
                    k - 1
                };
                assert(now[j] == l);
            }
            if now.contains(l) {
                let j = now.index_of(l);
                let k = if j < i {
                    j
                } else {
                    j + 1
                };
                assert(was[k] == l);
            }
        }
    }
}

/// A registry starts without members; a slug is taken in a group exactly when a member
/// of that group has it.
pub proof fn which_slugs_are_taken(
    base: PathName,
    fresh: Registry,
    reg: Registry,
    slug: String,
    group: String,
    taken: bool,
)
    requires
        call_ensures(Registry::new, (base,), fresh),
        call_ensures(Registry::is_taken, (&reg, &slug, &group), taken),
    ensures
        fresh@.base_dir == base@ && fresh@.members.len() == 0,
        taken <==> exists|i: int|
            0 <= i < reg@.members.len() && (#[trigger] reg@.members[i]).slug == slug@
                && reg@.members[i].group == group@,
{
}

/// The search for a repository starts where it is told to.
pub proof fn the_search_starts_there(start: PathName, t: RootTask)
    requires
        call_ensures(repo_root_from, (&start,), t),
    ensures
        t@.start == start@ && t@.current == start@ && !t@.found,
{
}

} // verus!
