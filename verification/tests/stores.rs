//! Submissions, answers and the polling bridge, on databases of `crosslink`.

use std::path::{Path, PathBuf};

use crossbridge::attachment::materialize;
use crossbridge::client::{
    answer_cmd, repo_root_from, submit_cmd, AnswerCommand, ClientAction, ClientReply, RootAction,
    SubmitCommand,
};
use crossbridge::config::{Config, RepoConfig, RepoEntry};
use crossbridge::framing::{
    read_message_sync, write_message_sync, ByteReader, Error, IoFault, MAX_FRAME_SIZE,
};
use crossbridge::handler::{
    handle_answer, handle_connection, handle_submit, response_failure, response_to, AnswerAction,
    AnswerTask, Dispatch, SubmitAction, SubmitReply, SubmitTask,
};
use crossbridge::listeners::AddAction;
use crossbridge::messages::{
    AnswerComment, Attachment, ClientRequest, Notification, RegisterResponse, ServerResponse,
    SubmitAnswer, SubmitIssue, SupervisorMessage,
};
use crossbridge::pathname::PathName;
use crossbridge::paths::SocketLayout;
use crossbridge::route::{
    collect_answered, route_outbound, run_cycle, CycleAction, CycleTask, ScanAction, ScanTask,
};
use crossbridge::run::{run, ServerAction, ServerConfig, ServerReply};
use crossbridge::store::{Comment, Issue, RouteOp, StoreOp, StoreReply, Write};
use crossbridge::uplink::UplinkAction;
use crosslink::db::Database;
use tempfile::{tempdir, Builder, TempDir};

// --- a repository ------------------------------------------------------------------

struct Repo {
    dir: TempDir,
    _store: TempDir,
}

impl Repo {
    fn new() -> Repo {
        let dir = tempdir().unwrap();
        let store =
            Builder::new().prefix(".crosslink").rand_bytes(0).tempdir_in(dir.path()).unwrap();
        Repo { dir, _store: store }
    }

    fn path(&self) -> PathName {
        name(self.dir.path())
    }

    fn db(&self) -> Database {
        Database::open(&self.dir.path().join(".crosslink").join("issues.db")).unwrap()
    }
}

fn name(p: &Path) -> PathName {
    PathName::from_text(p.to_str().unwrap())
}

fn file(p: &PathName) -> PathBuf {
    PathBuf::from(p.display())
}

fn has(labels: &[String], l: &str) -> bool {
    labels.iter().any(|x| x == l)
}

// --- operations --------------------------------------------------------------------

fn apply(db: &Database, writes: &[Write]) -> anyhow::Result<()> {
    for w in writes {
        match w {
            Write::AddLabel { id, label } => {
                db.add_label(*id, label)?;
            }
            Write::RemoveLabel { id, label } => {
                db.remove_label(*id, label)?;
            }
            Write::AddComment { id, content, kind } => {
                db.add_comment(*id, content, kind)?;
            }
        }
    }
    Ok(())
}

fn issue(i: crosslink::models::Issue) -> Issue {
    Issue {
        id: i.id,
        title: i.title,
        description: i.description,
        status: i.status.as_str().to_string(),
    }
}

fn perform(db: &Database, op: StoreOp) -> StoreReply {
    attempt(db, op).unwrap_or_else(|e| StoreReply::Failed(format!("{e:#}")))
}

fn attempt(db: &Database, op: StoreOp) -> anyhow::Result<StoreReply> {
    Ok(match op {
        StoreOp::List { closed, label } => {
            let status = if closed { "closed" } else { "open" };
            let found = db.list_issues(Some(status), Some(&label), None)?;
            StoreReply::Issues(found.into_iter().map(issue).collect())
        }
        StoreOp::LabelsOfAll { ids } => {
            let mut map = db.get_labels_batch(&ids)?;
            let lists = ids.iter().map(|id| map.remove(id).unwrap_or_default()).collect();
            StoreReply::LabelLists(lists)
        }
        StoreOp::Create { title, body, priority } => {
            StoreReply::Created(db.create_issue(&title, body.as_deref(), &priority)?)
        }
        StoreOp::Get { id } => StoreReply::Found(db.get_issue(id)?.map(issue)),
        StoreOp::Labels { id } => StoreReply::Labels(db.get_labels(id)?),
        StoreOp::Comments { id } => StoreReply::Comments(
            db.get_comments(id)?
                .into_iter()
                .map(|c| Comment { content: c.content, kind: c.kind })
                .collect(),
        ),
        StoreOp::Uuid { id } => StoreReply::Uuid(db.get_issue_uuid_by_id(id)?),
        StoreOp::IdOf { uuid } => StoreReply::Id(db.get_issue_id_by_uuid(&uuid)?),
        StoreOp::Close { id } => {
            db.close_issue(id)?;
            StoreReply::Done
        }
        StoreOp::Apply { writes } => {
            apply(db, &writes)?;
            StoreReply::Done
        }
        StoreOp::Transact { writes } => {
            db.transaction(|| apply(db, &writes))?;
            StoreReply::Done
        }
        StoreOp::Begin { .. } | StoreOp::Commit { .. } => panic!("belongs to an answer"),
    })
}

// --- drivers -----------------------------------------------------------------------

fn drive_submit(db: &Database, mut t: SubmitTask) -> Result<i64, String> {
    loop {
        let reply = match t.current() {
            SubmitAction::Store(op) => SubmitReply::Store(perform(db, op)),
            SubmitAction::Materialize(_) => SubmitReply::Materialized(Err("no jj here".into())),
            SubmitAction::Return(r) => return r,
        };
        t.resume(reply);
    }
}

fn drive_answer(db: &Database, mut t: AnswerTask) -> Result<i64, String> {
    loop {
        let reply = match t.current() {
            AnswerAction::Store(StoreOp::Begin { writes, id }) => {
                let done = db.transaction(|| {
                    apply(db, &writes)?;
                    t.resume(StoreReply::Labels(db.get_labels(id)?));
                    match t.current() {
                        AnswerAction::Store(StoreOp::Commit { writes }) => apply(db, &writes),
                        other => panic!("got {other:?}"),
                    }
                });
                match done {
                    Ok(()) => StoreReply::Done,
                    Err(e) => StoreReply::Failed(e.to_string()),
                }
            }
            AnswerAction::Store(op) => perform(db, op),
            AnswerAction::Return(r) => return r,
        };
        t.resume(reply);
    }
}

fn route_op(here: &Database, there: &mut Option<Database>, op: RouteOp) -> StoreReply {
    match op {
        RouteOp::OpenThere(p) => match Database::open(&file(&p)) {
            Ok(db) => {
                *there = Some(db);
                StoreReply::Done
            }
            Err(e) => StoreReply::Failed(format!("{e:#}")),
        },
        RouteOp::Here(op) => perform(here, op),
        RouteOp::There(op) => perform(there.as_ref().expect("an open database"), op),
    }
}

/// Runs a scan, and gives the failures of single issues.
fn drive_scan(db: &Database, config: &Config, mut t: ScanTask) -> Result<Vec<String>, String> {
    let mut there = None;
    let mut failures = Vec::new();
    loop {
        let reply = match t.current() {
            ScanAction::Do(op) => route_op(db, &mut there, op),
            ScanAction::Report { result, .. } => {
                failures.extend(result.err());
                StoreReply::Done
            }
            ScanAction::Return(r) => return r.map(|()| failures),
        };
        t = t.resumed(config, reply);
    }
}

fn drive_cycle(config: &Config) -> Vec<String> {
    let mut t: CycleTask = run_cycle();
    let mut here = None;
    let mut there = None;
    let mut failures = Vec::new();
    loop {
        let reply = match t.current(config) {
            CycleAction::OpenHere(p) => match Database::open(&file(&p)) {
                Ok(db) => {
                    here = Some(db);
                    StoreReply::Done
                }
                Err(e) => StoreReply::Failed(format!("{e:#}")),
            },
            CycleAction::Do(op) => route_op(here.as_ref().expect("open"), &mut there, op),
            CycleAction::Report { result, .. } => {
                failures.extend(result.err());
                StoreReply::Done
            }
            CycleAction::ReportAll { result, .. } => {
                failures.extend(result.err());
                StoreReply::Done
            }
            CycleAction::Finish => return failures,
        };
        t = t.resumed(config, reply);
    }
}

/// A client's command, as far as a test needs it.
enum Command {
    Submit(SubmitCommand),
    Answer(AnswerCommand),
}

impl Command {
    fn current(&self) -> ClientAction {
        match self {
            Command::Submit(t) => t.current(),
            Command::Answer(t) => t.current(),
        }
    }

    fn resumed(self, reply: ClientReply) -> Command {
        match self {
            Command::Submit(t) => Command::Submit(t.resumed(reply)),
            Command::Answer(t) => Command::Answer(t.resumed(reply)),
        }
    }
}

/// Runs a command against a server that gives one response, or none when there is
/// no socket. Gives the request that was sent, and the result.
fn drive_client(
    db: &Database,
    mut t: Command,
    response: Option<ServerResponse>,
) -> (Option<(PathName, ClientRequest)>, Result<String, String>) {
    let mut sent = None;
    loop {
        let reply = match t.current() {
            ClientAction::Store(op) => ClientReply::Store(perform(db, op)),
            ClientAction::Exists(_) => ClientReply::Answer(response.is_some()),
            ClientAction::RoundTrip(p, request) => {
                sent = Some((p, request));
                ClientReply::Response(response.clone().expect("a socket"))
            }
            ClientAction::Return(r) => return (sent, r),
        };
        t = t.resumed(reply);
    }
}

fn make_config(repos: Vec<(&str, &Repo)>) -> Config {
    let entries = repos
        .into_iter()
        .map(|(slug, repo)| RepoEntry {
            slug: slug.to_string(),
            repo: RepoConfig { path: repo.path() },
        })
        .collect();
    Config::load(entries).unwrap()
}

// --- the server --------------------------------------------------------------------

fn home() -> PathName {
    PathName::from_text("/repo")
}

fn submit() -> SubmitIssue {
    SubmitIssue {
        title: "Need answer X".to_string(),
        body: "Question body here.".to_string(),
        labels: vec!["custom:tag".to_string()],
        source_slug: "repo-a".to_string(),
        source_uuid: "uuid-1".to_string(),
        attachments: vec![],
    }
}

#[test]
fn submit_creates_issue_with_label_set() {
    let repo = Repo::new();
    let db = repo.db();
    let id = drive_submit(&db, handle_submit(submit(), home())).unwrap();
    assert!(id > 0, "issue id should be assigned");

    let labels = db.get_labels(id).unwrap();
    for required in [
        "type:request",
        "xb:inbound",
        "xb-status:open",
        "xb-source:repo-a",
        "xb-ref:uuid-1",
        "custom:tag",
    ] {
        assert!(has(&labels, required), "missing label {required}: {labels:?}");
    }

    let issue = db.get_issue(id).unwrap().unwrap();
    let body = issue.description.unwrap_or_default();
    assert!(body.contains("Question body here."));
    assert!(body.contains("crossbridge-client answer --issue <id>"));
}

/// The labels that start with `prefix`.
fn prefixed<'a>(labels: &'a [String], prefix: &str) -> Vec<&'a str> {
    labels.iter().map(|l| l.as_str()).filter(|l| l.starts_with(prefix)).collect()
}

#[test]
fn an_inbound_issue_has_its_own_status_and_no_target() {
    let repo = Repo::new();
    let db = repo.db();
    let mut s = submit();
    for l in ["xb-status:pending", "xb-status:error", "xb-target:repo-b", "xb:outbound"] {
        s.labels.push(l.to_string());
    }
    let id = drive_submit(&db, handle_submit(s, home())).unwrap();
    let labels = db.get_labels(id).unwrap();
    assert_eq!(prefixed(&labels, "xb-status:"), vec!["xb-status:open"]);
    assert_eq!(prefixed(&labels, "xb-target:"), Vec::<&str>::new());
    assert!(has(&labels, "custom:tag") && has(&labels, "xb:outbound"), "{labels:?}");
}

#[test]
fn submit_is_idempotent_on_duplicate_source_uuid() {
    let repo = Repo::new();
    let db = repo.db();
    let id1 = drive_submit(&db, handle_submit(submit(), home())).unwrap();
    let id2 = drive_submit(&db, handle_submit(submit(), home())).unwrap();
    assert_eq!(id1, id2);
    // Only one row exists.
    let issues = db.list_issues(Some("open"), Some("xb:inbound"), None).unwrap();
    assert_eq!(issues.len(), 1);
}

#[test]
fn submit_finds_a_closed_issue_too() {
    let repo = Repo::new();
    let db = repo.db();
    let id1 = drive_submit(&db, handle_submit(submit(), home())).unwrap();
    db.close_issue(id1).unwrap();
    let id2 = drive_submit(&db, handle_submit(submit(), home())).unwrap();
    assert_eq!(id1, id2);
}

#[test]
fn submit_says_when_attachments_are_lost() {
    let repo = Repo::new();
    let db = repo.db();
    let attachments = vec![Attachment { filename: "a.bin".into(), data: vec![1] }];
    let expected = materialize(home(), attachments.clone());
    let mut t = handle_submit(SubmitIssue { attachments, ..submit() }, home());
    while let SubmitAction::Store(op) = t.current() {
        t.resume(SubmitReply::Store(perform(&db, op)));
    }
    assert_eq!(t.current(), SubmitAction::Materialize(expected));
    let id = drive_submit(&db, t).unwrap();
    let comments = db.get_comments(id).unwrap();
    assert_eq!(comments.len(), 1);
    assert_eq!(
        comments[0].content,
        "crossbridge: failed to materialize attachments: no jj here"
    );
    assert_eq!(comments[0].kind, "note");
}

#[test]
fn submit_names_the_step_that_failed() {
    let mut t = handle_submit(submit(), home());
    t.resume(SubmitReply::Store(StoreReply::Failed("locked".into())));
    assert_eq!(
        t.current(),
        SubmitAction::Return(Err("listing issues by label xb-ref:uuid-1: locked".into()))
    );
}

#[test]
fn answer_unknown_source_uuid_is_error() {
    let repo = Repo::new();
    let db = repo.db();
    let answer = SubmitAnswer {
        source_uuid: "no-such-uuid".to_string(),
        comments: vec![],
        attachments: vec![],
    };
    let err = drive_answer(&db, handle_answer("repo-b", answer)).unwrap_err();
    assert!(err.contains("no local issue"));
}

#[test]
fn answer_copies_result_comments_and_swaps_status() {
    let repo = Repo::new();
    let db = repo.db();

    // An outbound issue as its own repository sees it.
    let outbound_id = db.create_issue("My question", None, "high").unwrap();
    db.add_label(outbound_id, "type:request").unwrap();
    db.add_label(outbound_id, "xb:outbound").unwrap();
    db.add_label(outbound_id, "xb-status:pending").unwrap();
    db.add_label(outbound_id, "xb-ref:target-uuid").unwrap();

    let answer = SubmitAnswer {
        source_uuid: "target-uuid".to_string(),
        comments: vec![
            AnswerComment { content: "the answer is 42".to_string(), kind: "result".to_string() },
            AnswerComment {
                content: "stray internal note, should not copy".to_string(),
                kind: "note".to_string(),
            },
        ],
        attachments: vec![],
    };

    let id = drive_answer(&db, handle_answer("repo-b", answer)).unwrap();
    assert_eq!(id, outbound_id);

    let labels = db.get_labels(outbound_id).unwrap();
    assert!(has(&labels, "xb-status:resolved"));
    assert!(!has(&labels, "xb-status:pending"));

    let issue = db.get_issue(outbound_id).unwrap().unwrap();
    assert_eq!(issue.status.as_str(), "closed");

    let comments = db.get_comments(outbound_id).unwrap();
    assert_eq!(comments.len(), 1, "only the result comment is copied");
    assert!(comments[0].content.starts_with("[from repo-b]"));
    assert!(comments[0].content.contains("the answer is 42"));
}

#[test]
fn answer_is_idempotent() {
    let repo = Repo::new();
    let db = repo.db();

    let outbound_id = db.create_issue("Q", None, "high").unwrap();
    db.add_label(outbound_id, "xb:outbound").unwrap();
    db.add_label(outbound_id, "xb-status:pending").unwrap();
    db.add_label(outbound_id, "xb-ref:target-uuid").unwrap();

    let answer = SubmitAnswer {
        source_uuid: "target-uuid".to_string(),
        comments: vec![AnswerComment {
            content: "duplicate answer".to_string(),
            kind: "result".to_string(),
        }],
        attachments: vec![],
    };

    drive_answer(&db, handle_answer("repo-b", answer.clone())).unwrap();
    drive_answer(&db, handle_answer("repo-b", answer)).unwrap();
    let comments = db.get_comments(outbound_id).unwrap();
    assert_eq!(comments.len(), 1, "duplicate answer must not duplicate comments");
}

#[test]
fn a_result_that_is_said_twice_is_copied_once() {
    let repo = Repo::new();
    let db = repo.db();
    let id = db.create_issue("Q", None, "high").unwrap();
    db.add_label(id, "xb-status:pending").unwrap();
    db.add_label(id, "xb-ref:u").unwrap();
    let said = |content: &str| AnswerComment {
        content: content.to_string(),
        kind: "result".to_string(),
    };
    let answer = SubmitAnswer {
        source_uuid: "u".to_string(),
        comments: vec![said("x"), said("y"), said("x")],
        attachments: vec![],
    };
    drive_answer(&db, handle_answer("repo-b", answer)).unwrap();
    let comments = db.get_comments(id).unwrap();
    let texts: Vec<&str> = comments.iter().map(|c| c.content.as_str()).collect();
    assert_eq!(texts, vec!["[from repo-b] x", "[from repo-b] y"]);
}

#[test]
fn a_connection_is_dispatched() {
    match handle_connection(Ok(ClientRequest::Submit(submit())), "repo-a", &home()) {
        Dispatch::Submit(t) => assert_eq!(
            t.current(),
            SubmitAction::Store(StoreOp::List { closed: false, label: "xb-ref:uuid-1".into() })
        ),
        other => panic!("got {other:?}"),
    }
    let fault = IoFault { clean_end: false, text: "reset".into() };
    match handle_connection(Err(Error::Io(fault)), "repo-a", &home()) {
        Dispatch::Reply(ServerResponse::Error { message }) => {
            assert!(message.contains("io error: reset"), "got {message}");
        }
        other => panic!("got {other:?}"),
    }
    assert_eq!(response_to(Ok(7)), ServerResponse::Success { issue_id: 7 });
    assert_eq!(response_to(Err("no".into())), ServerResponse::Error { message: "no".into() });
}

#[test]
fn oversized_frame_returns_error_response() {
    let oversize = (MAX_FRAME_SIZE as u32) + 1;
    let mut reader = ByteReader::new(oversize.to_be_bytes().to_vec());
    let read = read_message_sync::<ClientRequest>(&mut reader);
    match handle_connection(read, "peer-a", &home()) {
        Dispatch::Reply(ServerResponse::Error { message }) => {
            assert!(message.contains("frame too large"), "got {message}");
        }
        other => panic!("got {other:?}"),
    }
}

// --- the polling bridge -------------------------------------------------------------

#[test]
fn test_route_outbound_creates_target_issue() {
    let source = Repo::new();
    let target = Repo::new();
    let source_db = source.db();
    let target_db = target.db();

    let issue_id = source_db.create_issue("What is the PSP entry point?", None, "high").unwrap();
    source_db.add_label(issue_id, "type:request").unwrap();
    source_db.add_label(issue_id, "xb:outbound").unwrap();
    source_db.add_label(issue_id, "xb-status:open").unwrap();
    source_db.add_label(issue_id, "xb-target:target").unwrap();

    let config = make_config(vec![("source", &source), ("target", &target)]);
    drive_scan(&source_db, &config, route_outbound("source")).unwrap();

    let source_labels = source_db.get_labels(issue_id).unwrap();
    assert!(source_labels.contains(&"xb-status:pending".to_string()));
    assert!(!source_labels.contains(&"xb-status:open".to_string()));
    assert!(source_labels.iter().any(|l| l.starts_with("xb-ref:")));

    let target_issues = target_db.list_issues(Some("open"), Some("xb:inbound"), None).unwrap();
    assert_eq!(target_issues.len(), 1);
    assert_eq!(target_issues[0].title, "What is the PSP entry point?");

    let target_labels = target_db.get_labels(target_issues[0].id).unwrap();
    assert!(target_labels.contains(&"type:request".to_string()));
    assert!(target_labels.contains(&"xb:inbound".to_string()));
    assert!(target_labels.contains(&"xb-status:open".to_string()));
    assert!(target_labels.contains(&"xb-source:source".to_string()));
    assert!(target_labels.iter().any(|l| l.starts_with("xb-ref:")));

    // Running again creates no second issue.
    drive_scan(&source_db, &config, route_outbound("source")).unwrap();
    let target_issues_2 = target_db.list_issues(Some("open"), Some("xb:inbound"), None).unwrap();
    assert_eq!(target_issues_2.len(), 1, "should not create duplicate");
}

#[test]
fn test_route_outbound_unknown_target() {
    let source = Repo::new();
    let source_db = source.db();

    let issue_id = source_db.create_issue("Question for nonexistent repo", None, "high").unwrap();
    source_db.add_label(issue_id, "type:request").unwrap();
    source_db.add_label(issue_id, "xb:outbound").unwrap();
    source_db.add_label(issue_id, "xb-status:open").unwrap();
    source_db.add_label(issue_id, "xb-target:nonexistent").unwrap();

    let config = make_config(vec![("source", &source)]);
    drive_scan(&source_db, &config, route_outbound("source")).unwrap();

    let labels = source_db.get_labels(issue_id).unwrap();
    assert!(labels.contains(&"xb-status:error".to_string()));
    assert!(!labels.contains(&"xb-status:open".to_string()));
    assert!(!labels.contains(&"xb:outbound".to_string()));

    let comments = source_db.get_comments(issue_id).unwrap();
    assert_eq!(comments.len(), 1);
    assert!(comments[0].content.contains("unknown target"));
    assert!(comments[0].content.contains("source"));
}

#[test]
fn test_collect_answered() {
    let source = Repo::new();
    let target = Repo::new();
    let source_db = source.db();
    let target_db = target.db();

    let source_id = source_db.create_issue("What is X?", None, "high").unwrap();
    let source_uuid = source_db.get_issue_uuid_by_id(source_id).unwrap();
    source_db.add_label(source_id, "type:request").unwrap();
    source_db.add_label(source_id, "xb:outbound").unwrap();
    source_db.add_label(source_id, "xb-status:pending").unwrap();

    let target_id = target_db.create_issue("What is X?", None, "high").unwrap();
    let target_uuid = target_db.get_issue_uuid_by_id(target_id).unwrap();
    target_db.add_label(target_id, "type:request").unwrap();
    target_db.add_label(target_id, "xb:inbound").unwrap();
    target_db.add_label(target_id, "xb-status:answered").unwrap();
    target_db.add_label(target_id, "xb-source:source").unwrap();
    target_db.add_label(target_id, &format!("xb-ref:{source_uuid}")).unwrap();

    source_db.add_label(source_id, &format!("xb-ref:{target_uuid}")).unwrap();
    target_db.add_comment(target_id, "X is the PSP reset vector at 0x100", "result").unwrap();

    let config = make_config(vec![("source", &source), ("target", &target)]);
    drive_scan(&target_db, &config, collect_answered("target")).unwrap();

    let source_labels = source_db.get_labels(source_id).unwrap();
    assert!(source_labels.contains(&"xb-status:resolved".to_string()));
    assert!(!source_labels.contains(&"xb-status:pending".to_string()));

    let source_issue = source_db.get_issue(source_id).unwrap().unwrap();
    assert_eq!(source_issue.status.as_str(), "closed");

    let source_comments = source_db.get_comments(source_id).unwrap();
    assert_eq!(source_comments.len(), 1);
    assert!(source_comments[0].content.contains("X is the PSP reset vector"));
    assert!(source_comments[0].content.starts_with("[from target]"));

    let target_issue = target_db.get_issue(target_id).unwrap().unwrap();
    assert_eq!(target_issue.status.as_str(), "closed");
}

#[test]
fn test_full_cycle() {
    let repo_a = Repo::new();
    let repo_b = Repo::new();
    let db_a = repo_a.db();
    let db_b = repo_b.db();

    let req_id = db_a.create_issue("What compiler flags does repo B use?", None, "high").unwrap();
    db_a.add_label(req_id, "type:request").unwrap();
    db_a.add_label(req_id, "xb:outbound").unwrap();
    db_a.add_label(req_id, "xb-status:open").unwrap();
    db_a.add_label(req_id, "xb-target:repo-b").unwrap();

    let config = make_config(vec![("repo-a", &repo_a), ("repo-b", &repo_b)]);

    // The first cycle carries the request over.
    assert!(drive_cycle(&config).is_empty());

    let a_labels = db_a.get_labels(req_id).unwrap();
    assert!(a_labels.contains(&"xb-status:pending".to_string()));

    let b_issues = db_b.list_issues(Some("open"), Some("xb:inbound"), None).unwrap();
    assert_eq!(b_issues.len(), 1);

    // The other repository answers.
    let b_issue_id = b_issues[0].id;
    db_b.add_comment(b_issue_id, "-O2 -march=znver3 -flto", "result").unwrap();
    db_b.remove_label(b_issue_id, "xb-status:open").unwrap();
    db_b.add_label(b_issue_id, "xb-status:answered").unwrap();

    // The second cycle brings the answer back.
    assert!(drive_cycle(&config).is_empty());

    let a_issue = db_a.get_issue(req_id).unwrap().unwrap();
    assert_eq!(a_issue.status.as_str(), "closed");

    let a_comments = db_a.get_comments(req_id).unwrap();
    assert!(a_comments.iter().any(|c| c.content.contains("-O2")));

    let b_issue = db_b.get_issue(b_issue_id).unwrap().unwrap();
    assert_eq!(b_issue.status.as_str(), "closed");
}

#[test]
fn test_idempotent_after_crash_between_dbs() {
    let source = Repo::new();
    let target = Repo::new();
    let source_db = source.db();
    let _target_db = target.db();

    let issue_id = source_db.create_issue("Crash test question", None, "high").unwrap();
    source_db.add_label(issue_id, "type:request").unwrap();
    source_db.add_label(issue_id, "xb:outbound").unwrap();
    source_db.add_label(issue_id, "xb-status:open").unwrap();
    source_db.add_label(issue_id, "xb-target:target").unwrap();

    let config = make_config(vec![("source", &source), ("target", &target)]);
    drive_scan(&source_db, &config, route_outbound("source")).unwrap();

    // As if the source had never been updated.
    source_db.remove_label(issue_id, "xb-status:pending").unwrap();
    source_db.add_label(issue_id, "xb-status:open").unwrap();
    let labels = source_db.get_labels(issue_id).unwrap();
    for l in &labels {
        if l.starts_with("xb-ref:") {
            source_db.remove_label(issue_id, l).unwrap();
        }
    }

    let target_path = file(&config.get("target").unwrap().db_path());
    let target_db = Database::open(&target_path).unwrap();
    let before = target_db.list_issues(Some("open"), Some("xb:inbound"), None).unwrap();
    assert_eq!(before.len(), 1);
    drop(target_db);

    drive_scan(&source_db, &config, route_outbound("source")).unwrap();

    let target_db = Database::open(&target_path).unwrap();
    let after = target_db.list_issues(Some("open"), Some("xb:inbound"), None).unwrap();
    assert_eq!(after.len(), 1, "idempotency check should prevent duplicate");

    let source_labels = source_db.get_labels(issue_id).unwrap();
    assert!(source_labels.contains(&"xb-status:pending".to_string()));
    let there_uuid = target_db.get_issue_uuid_by_id(after[0].id).unwrap();
    assert!(has(&source_labels, &format!("xb-ref:{there_uuid}")), "{source_labels:?}");
}

#[test]
fn a_delivery_that_broke_off_is_completed() {
    let source = Repo::new();
    let target = Repo::new();
    let source_db = source.db();
    let target_db = target.db();
    let id = source_db.create_issue("Q?", None, "high").unwrap();
    for l in ["type:request", "xb:outbound", "xb-status:open", "xb-target:target"] {
        source_db.add_label(id, l).unwrap();
    }
    // The target has its part, the source has not.
    let uuid = source_db.get_issue_uuid_by_id(id).unwrap();
    let there = target_db.create_issue("Q?", None, "medium").unwrap();
    target_db.add_label(there, &format!("xb-ref:{uuid}")).unwrap();
    let there_uuid = target_db.get_issue_uuid_by_id(there).unwrap();

    let config = make_config(vec![("source", &source), ("target", &target)]);
    drive_scan(&source_db, &config, route_outbound("source")).unwrap();
    let labels = source_db.get_labels(id).unwrap();
    assert_eq!(prefixed(&labels, "xb-status:"), vec!["xb-status:pending"]);
    assert_eq!(prefixed(&labels, "xb-ref:"), vec![format!("xb-ref:{there_uuid}").as_str()]);
    assert_eq!(target_db.list_issues(Some("all"), None, None).unwrap().len(), 1);
}

#[test]
fn collecting_twice_adds_nothing() {
    let repo_a = Repo::new();
    let repo_b = Repo::new();
    let db_a = repo_a.db();
    let db_b = repo_b.db();
    let req_id = db_a.create_issue("Q?", Some("more"), "high").unwrap();
    for l in ["type:request", "xb:outbound", "xb-status:open", "xb-target:repo-b"] {
        db_a.add_label(req_id, l).unwrap();
    }
    let config = make_config(vec![("repo-a", &repo_a), ("repo-b", &repo_b)]);
    drive_cycle(&config);
    let b_issue = db_b.list_issues(Some("open"), Some("xb:inbound"), None).unwrap().remove(0);
    db_b.add_comment(b_issue.id, "A!", "result").unwrap();
    db_b.add_comment(b_issue.id, "aside", "note").unwrap();
    db_b.remove_label(b_issue.id, "xb-status:open").unwrap();
    db_b.add_label(b_issue.id, "xb-status:answered").unwrap();
    drive_cycle(&config);
    let first = db_a.get_comments(req_id).unwrap();
    assert_eq!(first.len(), 1);
    assert_eq!(first[0].content, "[from repo-b] A!");

    // As if the bridge had stopped before it closed the answered issue.
    db_b.reopen_issue(b_issue.id).unwrap();
    drive_cycle(&config);
    assert_eq!(db_a.get_comments(req_id).unwrap().len(), 1);
    let labels = db_a.get_labels(req_id).unwrap();
    assert_eq!(labels.iter().filter(|l| l.starts_with("xb-status:")).count(), 1);
}

#[test]
fn no_issue_names_both_a_target_and_a_source() {
    let source = Repo::new();
    let target = Repo::new();
    let source_db = source.db();
    let target_db = target.db();
    let id = source_db.create_issue("Q?", None, "high").unwrap();
    for l in ["type:request", "xb:outbound", "xb-status:open", "xb-target:target"] {
        source_db.add_label(id, l).unwrap();
    }
    let config = make_config(vec![("source", &source), ("target", &target)]);
    drive_scan(&source_db, &config, route_outbound("source")).unwrap();
    let there = target_db.list_issues(Some("open"), Some("xb:inbound"), None).unwrap().remove(0);
    let there = target_db.get_labels(there.id).unwrap();
    assert!(!there.iter().any(|l| l.starts_with("xb-target:")), "{there:?}");
    let here = source_db.get_labels(id).unwrap();
    assert!(!here.iter().any(|l| l.starts_with("xb-source:")), "{here:?}");
}

#[test]
fn one_issue_that_fails_does_not_stop_the_others() {
    let source = Repo::new();
    let target = Repo::new();
    let source_db = source.db();
    drop(target.db());
    // No target label: this one fails.
    let bad = source_db.create_issue("bad", None, "high").unwrap();
    let good = source_db.create_issue("good", None, "high").unwrap();
    for id in [bad, good] {
        for l in ["type:request", "xb:outbound", "xb-status:open"] {
            source_db.add_label(id, l).unwrap();
        }
    }
    source_db.add_label(good, "xb-target:target").unwrap();
    let config = make_config(vec![("source", &source), ("target", &target)]);
    let failures = drive_scan(&source_db, &config, route_outbound("source")).unwrap();
    assert_eq!(failures.len(), 1, "{failures:?}");
    assert!(has(&source_db.get_labels(good).unwrap(), "xb-status:pending"));
    assert!(has(&source_db.get_labels(bad).unwrap(), "xb-status:open"));
}

// --- the client --------------------------------------------------------------------

const OWN_SLUG: &str = "c";
const PEER_SLUG: &str = "p";

fn submit_command(id: i64) -> Command {
    let root = PathName::from_text("/sockets");
    Command::Submit(submit_cmd(root, OWN_SLUG.into(), id, PEER_SLUG.into()))
}

fn answer_command(id: i64) -> Command {
    Command::Answer(answer_cmd(PathName::from_text("/sockets"), OWN_SLUG.into(), id))
}

#[test]
fn submit_round_trips_and_labels_local_issue() {
    let repo = Repo::new();
    let db = repo.db();
    let local_id = db.create_issue("question", Some("body"), "medium").unwrap();

    let response = ServerResponse::Success { issue_id: 4242 };
    let (sent, result) = drive_client(&db, submit_command(local_id), Some(response));
    assert!(result.is_ok(), "{result:?}");

    let (socket, request) = sent.unwrap();
    assert_eq!(socket, PathName::from_text("/sockets/c/p.socket"));
    let ClientRequest::Submit(sub) = request else {
        panic!("expected Submit, got {request:?}");
    };
    assert_eq!(sub.title, "question");
    assert_eq!(sub.body, "body");
    assert_eq!(sub.source_slug, OWN_SLUG);
    let local_uuid = db.get_issue_uuid_by_id(local_id).unwrap();
    assert_eq!(sub.source_uuid, local_uuid);

    let labels = db.get_labels(local_id).unwrap();
    assert!(has(&labels, "xb:outbound"), "{labels:?}");
    assert!(has(&labels, "xb-status:pending"), "{labels:?}");
    let expected_ref = format!("xb-ref:{local_uuid}");
    assert!(has(&labels, &expected_ref), "expected {expected_ref:?} in {labels:?}");
}

#[test]
fn submit_replaces_the_status_that_was_there() {
    let repo = Repo::new();
    let db = repo.db();
    let id = db.create_issue("again", None, "medium").unwrap();
    for l in ["xb-status:open", "xb-status:error", "other"] {
        db.add_label(id, l).unwrap();
    }
    let response = ServerResponse::Success { issue_id: 1 };
    drive_client(&db, submit_command(id), Some(response)).1.unwrap();
    let labels = db.get_labels(id).unwrap();
    assert_eq!(prefixed(&labels, "xb-status:"), vec!["xb-status:pending"]);
    assert!(has(&labels, "other") && has(&labels, "xb:outbound"), "{labels:?}");
}

#[test]
fn submit_with_no_socket_errors_and_does_not_label() {
    let repo = Repo::new();
    let db = repo.db();
    let local_id = db.create_issue("nope", Some("b"), "medium").unwrap();

    let (sent, result) = drive_client(&db, submit_command(local_id), None);
    assert!(sent.is_none());
    let e = result.unwrap_err();
    assert!(
        e.contains(&format!("peer '{PEER_SLUG}' not available (not connected)")),
        "error was: {e}"
    );
    let labels = db.get_labels(local_id).unwrap();
    assert!(!labels.iter().any(|l| l.starts_with("xb")), "got: {labels:?}");
}

#[test]
fn submit_missing_issue_errors() {
    let repo = Repo::new();
    let (_, result) = drive_client(&repo.db(), submit_command(9999), None);
    let e = result.unwrap_err();
    assert!(e.contains("issue #9999 not found"), "error was: {e}");
}

#[test]
fn submit_refused_by_the_server_does_not_label() {
    let repo = Repo::new();
    let db = repo.db();
    let local_id = db.create_issue("q", None, "medium").unwrap();
    let response = ServerResponse::Error { message: "full".into() };
    let (_, result) = drive_client(&db, submit_command(local_id), Some(response));
    let e = result.unwrap_err();
    assert!(e.contains("full"), "error was: {e}");
    assert!(db.get_labels(local_id).unwrap().is_empty());
}

#[test]
fn answer_sends_result_comments_and_closes() {
    let repo = Repo::new();
    let db = repo.db();

    let local_id = db.create_issue("inbound", Some("from peer"), "medium").unwrap();
    db.add_label(local_id, "xb:inbound").unwrap();
    db.add_label(local_id, &format!("xb-source:{PEER_SLUG}")).unwrap();
    db.add_label(local_id, "xb-ref:source-uuid-xyz").unwrap();
    db.add_comment(local_id, "this is the answer", "result").unwrap();
    db.add_comment(local_id, "ignored note", "note").unwrap();

    let response = ServerResponse::Success { issue_id: 77 };
    let (sent, result) = drive_client(&db, answer_command(local_id), Some(response));
    assert!(result.is_ok(), "{result:?}");

    let (_, request) = sent.unwrap();
    let ClientRequest::Answer(ans) = request else {
        panic!("expected Answer, got {request:?}");
    };
    assert_eq!(ans.source_uuid, "source-uuid-xyz");
    assert_eq!(ans.comments.len(), 1);
    assert_eq!(ans.comments[0].kind, "result");
    assert_eq!(ans.comments[0].content, "this is the answer");

    let labels = db.get_labels(local_id).unwrap();
    assert!(has(&labels, "xb-status:answered"), "{labels:?}");
    let issue = db.require_issue(local_id).unwrap();
    assert_eq!(issue.status.as_str(), "closed");
}

#[test]
fn an_answered_issue_is_no_longer_open() {
    let repo = Repo::new();
    let db = repo.db();
    let id = drive_submit(&db, handle_submit(submit(), home())).unwrap();
    let response = ServerResponse::Success { issue_id: 7 };
    drive_client(&db, answer_command(id), Some(response)).1.unwrap();
    let labels = db.get_labels(id).unwrap();
    assert_eq!(prefixed(&labels, "xb-status:"), vec!["xb-status:answered"]);
}

#[test]
fn answer_without_inbound_label_errors_and_leaves_unchanged() {
    let repo = Repo::new();
    let db = repo.db();
    let local_id = db.create_issue("plain", Some("not inbound"), "medium").unwrap();

    let (_, result) = drive_client(&db, answer_command(local_id), None);
    let e = result.unwrap_err();
    assert!(
        e.contains(&format!("issue #{local_id} is not an inbound crossbridge issue")),
        "error was: {e}"
    );

    let issue = db.require_issue(local_id).unwrap();
    assert_eq!(issue.status.as_str(), "open");
    let labels = db.get_labels(local_id).unwrap();
    assert!(labels.is_empty(), "labels expected empty, got {labels:?}");
}

#[test]
fn the_repository_is_the_nearest_one_above() {
    let found = |start: &str, there: &str| {
        let mut t = repo_root_from(&PathName::from_text(start));
        loop {
            match t.current() {
                RootAction::Exists(p) => t.resume(p.display() == there),
                RootAction::Return(p) => return p.display(),
            }
        }
    };
    assert_eq!(found("/a/b/c", "/a/.crosslink/issues.db"), "/a");
    assert_eq!(found("/a/b/c", "/a/b/c/.crosslink/issues.db"), "/a/b/c");
    assert_eq!(found("/a/b/c", "/.crosslink/issues.db"), "/");
    // Where there is none, the search gives back where it began.
    assert_eq!(found("/a/b/c", "nowhere"), "/a/b/c");
}

#[test]
fn a_response_that_cannot_be_written_in_words() {
    let fault = IoFault { clean_end: false, text: "broken pipe".into() };
    assert_eq!(
        response_failure(&Error::Io(fault)),
        "writing response frame: io error: broken pipe"
    );
}

#[test]
fn write_message_sync_refuses_oversize_submission() {
    let req = ClientRequest::Submit(SubmitIssue {
        title: "t".into(),
        body: String::new(),
        labels: Vec::new(),
        source_slug: "s".into(),
        source_uuid: "u".into(),
        attachments: vec![Attachment {
            filename: "blob".into(),
            data: vec![0u8; MAX_FRAME_SIZE + 1],
        }],
    });

    let mut sink: Vec<u8> = Vec::new();
    let err = write_message_sync(&mut sink, &req).expect_err("expected FrameTooLarge");
    let msg = err.text();
    assert!(msg.contains("frame too large"), "got: {msg}");
    assert!(sink.is_empty(), "no bytes should have been written, got {} bytes", sink.len());
}

#[test]
fn a_question_goes_there_and_the_answer_comes_back() {
    let asking = Repo::new();
    let asked = Repo::new();
    let db_a = asking.db();
    let db_b = asked.db();
    let q = db_a.create_issue("question", Some("body"), "medium").unwrap();

    // The client of `a` submits to the server of `b`.
    let mut there = None;
    let mut t = submit_cmd(PathName::from_text("/s"), "a".into(), q, "b".into());
    loop {
        let reply = match t.current() {
            ClientAction::Store(op) => ClientReply::Store(perform(&db_a, op)),
            ClientAction::Exists(_) => ClientReply::Answer(true),
            ClientAction::RoundTrip(_, request) => {
                let Dispatch::Submit(task) = handle_connection(Ok(request), "a", &home()) else {
                    panic!("no submission");
                };
                let outcome = drive_submit(&db_b, task);
                there = outcome.clone().ok();
                ClientReply::Response(response_to(outcome))
            }
            ClientAction::Return(r) => {
                r.unwrap();
                break;
            }
        };
        t = t.resumed(reply);
    }
    let there = there.unwrap();
    db_b.add_comment(there, "42", "result").unwrap();

    // The client of `b` answers to the server of `a`.
    let mut t = answer_cmd(PathName::from_text("/s"), "b".into(), there);
    loop {
        let reply = match t.current() {
            ClientAction::Store(op) => ClientReply::Store(perform(&db_b, op)),
            ClientAction::Exists(p) => {
                assert_eq!(p, PathName::from_text("/s/b/a.socket"));
                ClientReply::Answer(true)
            }
            ClientAction::RoundTrip(_, request) => {
                let Dispatch::Answer(task) = handle_connection(Ok(request), "b", &home()) else {
                    panic!("no answer");
                };
                ClientReply::Response(response_to(drive_answer(&db_a, task)))
            }
            ClientAction::Return(r) => {
                r.unwrap();
                break;
            }
        };
        t = t.resumed(reply);
    }

    let comments = db_a.get_comments(q).unwrap();
    assert_eq!(comments.len(), 1);
    assert_eq!(comments[0].content, "[from b] 42");
    let labels_a = db_a.get_labels(q).unwrap();
    assert_eq!(prefixed(&labels_a, "xb-status:"), vec!["xb-status:resolved"]);
    let labels_b = db_b.get_labels(there).unwrap();
    assert_eq!(prefixed(&labels_b, "xb-status:"), vec!["xb-status:answered"]);
    assert_eq!(db_a.require_issue(q).unwrap().status.as_str(), "closed");
    assert_eq!(db_b.require_issue(there).unwrap().status.as_str(), "closed");
}

#[test]
fn submit_issue_round_trip_via_supervisor_topology() {
    let repo = Repo::new();
    let db = repo.db();
    let layout = || SocketLayout::new(PathName::from_text("/r"));
    let socket = layout().listener_socket("repo-b", "repo-a");
    let mut t = run(ServerConfig {
        slug: "repo-a".to_string(),
        group: "amd-psp".to_string(),
        repo_path: repo.path(),
        layout: layout(),
    });
    let peers = vec!["repo-b".to_string()];
    let ack = SupervisorMessage::RegisterResponse(RegisterResponse::Ack { peers });
    let mut bound = Vec::new();
    loop {
        let reply = match t.current() {
            ServerAction::Exists(p) => ServerReply::Answer(file(&p).exists()),
            ServerAction::Uplink(UplinkAction::Receive) => ServerReply::Message(ack.clone()),
            ServerAction::Listen(AddAction::Exists(_)) => ServerReply::Failed(String::new()),
            ServerAction::Listen(AddAction::Bind { path, .. }) => {
                bound.push(path);
                ServerReply::Done
            }
            ServerAction::Await => break,
            ServerAction::Return(r) => panic!("got {r:?}"),
            _ => ServerReply::Done,
        };
        t = t.resumed(reply);
    }
    assert_eq!(bound, vec![socket.copy()]);

    // A client of repo-b sends a submission.
    let req = ClientRequest::Submit(SubmitIssue {
        title: "Hello from repo-b".to_string(),
        body: "Plz answer".to_string(),
        labels: vec![],
        source_slug: "repo-b".to_string(),
        source_uuid: "uuid-xyz".to_string(),
        attachments: vec![],
    });
    let mut wire: Vec<u8> = Vec::new();
    write_message_sync(&mut wire, &req).unwrap();
    t = t.resumed(ServerReply::Accepted("repo-b".to_string()));
    let ServerAction::Serve { peer } = t.current() else { panic!("not serving") };
    let read = read_message_sync::<ClientRequest>(&mut ByteReader::new(wire));
    let Dispatch::Submit(task) = handle_connection(read, &peer, &repo.path()) else {
        panic!("no submission");
    };
    let response = response_to(drive_submit(&db, task));
    let ServerResponse::Success { issue_id } = response else { panic!("got {response:?}") };
    assert!(issue_id > 0);
    t = t.resumed(ServerReply::Done);

    let issue = db.get_issue(issue_id).unwrap().unwrap();
    assert_eq!(issue.title, "Hello from repo-b");
    let labels = db.get_labels(issue_id).unwrap();
    assert!(has(&labels, "xb-source:repo-b"));
    assert!(has(&labels, "xb-ref:uuid-xyz"));

    // The peer leaves, and its socket goes.
    let news = Notification::PeerLeft { slug: "repo-b".to_string() };
    t = t.resumed(ServerReply::Notified(Ok(Some(news))));
    assert_eq!(t.current(), ServerAction::Close { peer: "repo-b".to_string(), path: socket });
    t = t.resumed(ServerReply::Done);

    // The server stops cleanly.
    t = t.resumed(ServerReply::Shutdown);
    t = t.resumed(ServerReply::Done);
    assert_eq!(t.current(), ServerAction::Return(Ok(())));
}
