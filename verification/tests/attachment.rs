//! Recording attachments as a commit.

use crossbridge::attachment::{
    check_filename, format_comment, materialize, tmp_root, unique_name, MaterializeAction,
    MaterializeReply, MaterializedAttachment,
};
use crossbridge::messages::Attachment;
use crossbridge::pathname::PathName;

fn attachment(filename: &str) -> Attachment {
    Attachment { filename: filename.into(), data: vec![1, 2, 3] }
}

/// Records in `/repo`, which has a `.jj`, and says what was asked. The run of `jj`
/// whose first words are `fails` fails.
fn record(
    attachments: Vec<Attachment>,
    fails: &str,
) -> (Vec<String>, Result<MaterializedAttachment, String>) {
    let mut t = materialize(PathName::from_text("/repo"), attachments);
    let mut asked = Vec::new();
    loop {
        let reply = match t.current() {
            MaterializeAction::IsDir(p) => {
                asked.push(format!("dir {}", p.display()));
                MaterializeReply::Answer(p.display().ends_with(".jj"))
            }
            MaterializeAction::Exists(p) => {
                asked.push(format!("exists {}", p.display()));
                MaterializeReply::Answer(false)
            }
            MaterializeAction::Stamp => MaterializeReply::Stamp { pid: 7, nanos: 99 },
            MaterializeAction::CreateDir(p) => {
                asked.push(format!("create {}", p.display()));
                MaterializeReply::Done
            }
            MaterializeAction::RemoveDir(p) => {
                asked.push(format!("remove {}", p.display()));
                MaterializeReply::Done
            }
            MaterializeAction::Write(p, data) => {
                asked.push(format!("write {} {data:?}", p.display()));
                MaterializeReply::Done
            }
            MaterializeAction::Jj { cwd, args } => {
                let line = args.join(" ");
                let success = fails.is_empty() || !line.starts_with(fails);
                asked.push(format!("{}$ jj {line}", cwd.display()));
                MaterializeReply::Ran {
                    success,
                    stdout: if line.starts_with("log") { b"abc123\n".to_vec() } else { vec![] },
                    stderr: if success { vec![] } else { b"no way".to_vec() },
                }
            }
            MaterializeAction::Return(r) => return (asked, r),
        };
        t.resume(reply);
    }
}

#[test]
fn rejects_path_traversal_in_filename() {
    let (asked, r) = record(vec![attachment("../escape.bin")], "");
    assert!(r.unwrap_err().contains("path separators"));
    assert!(!asked.iter().any(|a| a.starts_with("write")), "{asked:?}");
    // The workspace is cleaned up all the same.
    assert!(asked.last().unwrap().starts_with("remove"), "{asked:?}");
}

#[test]
fn materialize_creates_jj_commit_and_cleans_up() {
    let (asked, r) = record(vec![attachment("coverage.bin")], "");
    let rec = r.unwrap();
    assert_eq!(rec.commit_id, "abc123");
    assert_eq!(rec.filenames, vec!["coverage.bin"]);

    let root = tmp_root(&PathName::from_text("/repo")).display();
    let workspace = format!("{root}/{}", unique_name(7, 99));
    assert!(asked.contains(&format!("create {root}")), "{asked:?}");
    assert!(asked.contains(&format!("write {workspace}/coverage.bin [1, 2, 3]")), "{asked:?}");
    // The workspace is gone at the end.
    assert_eq!(asked.last().unwrap(), &format!("remove {workspace}"));
}

#[test]
fn format_comment_includes_sha_and_files() {
    let rec = MaterializedAttachment {
        commit_id: "abc1234".to_string(),
        filenames: vec!["a.bin".to_string(), "b.bin".to_string()],
    };
    let s = format_comment(&rec);
    assert!(s.contains("abc1234"));
    assert!(s.contains("a.bin"));
    assert!(s.contains("b.bin"));
}

#[test]
fn every_failure_is_followed_by_the_clean_up() {
    for fails in ["workspace add", "describe", "log"] {
        let (asked, r) = record(vec![attachment("a"), attachment("b")], fails);
        let e = r.unwrap_err();
        assert!(e.contains("no way"), "{fails}: {e}");
        assert!(asked.last().unwrap().starts_with("remove"), "{fails}: {asked:?}");
    }
    // A failure to forget the workspace is no failure.
    assert!(record(vec![attachment("a")], "workspace forget").1.is_ok());
}

#[test]
fn nothing_to_record_and_nowhere_to_record_it() {
    assert_eq!(record(vec![], "").1.unwrap_err(), "no attachments to materialize");
    let mut t = materialize(PathName::from_text("/plain"), vec![attachment("a")]);
    t.resume(MaterializeReply::Answer(false));
    t.resume(MaterializeReply::Answer(false));
    assert_eq!(
        t.current(),
        MaterializeAction::Return(Err("/plain is neither a jj nor a git repo".into()))
    );
}

#[test]
fn plain_names_only() {
    for good in ["a.bin", ".hidden", "a b", "ü", ".."] {
        assert_eq!(check_filename(&good.to_string()), None, "{good}");
    }
    for bad in ["", "a/b", "/a", "a\\b", "\\"] {
        assert!(check_filename(&bad.to_string()).is_some(), "{bad:?}");
    }
}
