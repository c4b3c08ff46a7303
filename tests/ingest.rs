use iocost_benchmarks::actions::{
    CommentAuthorAssociation, ContextPayload, Issue, IssueComment, IssueCommentEvent,
    IssueCommentEventAction, IssueEvent, IssueEventAction, IssueState, Repository,
    RepositoryOwner, User,
};
use iocost_benchmarks::ingest::{
    branch_name, classify_links, commit_message, is_url_acceptable, is_url_allowlisted,
    record_new_file, rejection_comment, submission_body, triage_body, HighLevel, IngestError,
    FetchOutcome, IngestAction, IngestSession, Rejection, NOT_ALLOWLISTED,
};

fn issue(body: &str, state: IssueState, locked: bool) -> Issue {
    Issue {
        id: 42,
        title: "Results".to_string(),
        body: body.to_string(),
        user: User { username: "alice".to_string() },
        locked,
        state,
    }
}

fn repository() -> Repository {
    Repository {
        default_branch: "main".to_string(),
        full_name: "iocost-benchmark/iocost-benchmarks".to_string(),
        name: "iocost-benchmarks".to_string(),
        owner: RepositoryOwner { login: "iocost-benchmark".to_string() },
    }
}

fn issue_event(action: IssueEventAction, state: IssueState, locked: bool) -> ContextPayload {
    ContextPayload::Issues {
        event: IssueEvent { action, issue: issue("issue body", state, locked), repository: repository() },
    }
}

fn comment_event(action: IssueCommentEventAction) -> ContextPayload {
    ContextPayload::IssueComment {
        event: IssueCommentEvent {
            action,
            comment: IssueComment {
                id: 7,
                body: "comment body".to_string(),
                user: User { username: "bob".to_string() },
                author_association: CommentAuthorAssociation::NoAssociation,
            },
            issue: issue("issue body", IssueState::Open, false),
            repository: repository(),
        },
    }
}

#[test]
fn allowlisted_prefixes() {
    assert!(is_url_allowlisted("https://github.com/iocost-benchmark/files/1/a.json.gz"));
    assert!(is_url_allowlisted(
        "https://iocost-submit-us-east-1.s3.us-east-1.amazonaws.com/x.json.gz"
    ));
    assert!(is_url_allowlisted("https://iocost-submit.s3.eu-north-1.amazonaws.com/x.json.gz"));
    assert!(!is_url_allowlisted("http://github.com/a.json.gz"));
    assert!(!is_url_allowlisted("https://example.com/https://github.com/"));
    assert!(!is_url_allowlisted(""));
}

#[test]
fn acceptable_needs_extension_and_prefix() {
    assert!(is_url_acceptable("https://github.com/a/b.json.gz"));
    assert!(!is_url_acceptable("https://github.com/a/b.json"));
    assert!(!is_url_acceptable("https://evil.example.com/b.json.gz"));
}

#[test]
fn classify_keeps_order_and_reasons() {
    let links = vec![
        "https://github.com/a.json.gz".to_string(),
        "https://evil.example.com/b.json.gz".to_string(),
        "https://github.com/c.txt".to_string(),
        "https://iocost-submit.s3.eu-north-1.amazonaws.com/d.json.gz".to_string(),
    ];
    let t = classify_links(&links);
    assert_eq!(
        t.accepted,
        vec![
            "https://github.com/a.json.gz".to_string(),
            "https://iocost-submit.s3.eu-north-1.amazonaws.com/d.json.gz".to_string()
        ]
    );
    assert_eq!(t.rejected.len(), 2);
    assert_eq!(t.rejected[0].url, "https://evil.example.com/b.json.gz");
    assert_eq!(t.rejected[1].url, "https://github.com/c.txt");
    assert!(t.rejected.iter().all(|r| r.reason == NOT_ALLOWLISTED));
}

#[test]
fn classify_empty() {
    let t = classify_links(&vec![]);
    assert!(t.accepted.is_empty());
    assert!(t.rejected.is_empty());
    assert_eq!(rejection_comment(&t.rejected), None);
}

#[test]
fn one_allowed_one_refused_link() {
    let body = "Here are my results: https://github.com/iocost-benchmark/iocost-benchmarks/files/1/result.json.gz \
                and a mirror https://files.example.org/result.json.gz thanks";
    let t = triage_body(body);
    assert_eq!(
        t.accepted,
        vec!["https://github.com/iocost-benchmark/iocost-benchmarks/files/1/result.json.gz".to_string()]
    );
    assert_eq!(t.rejected.len(), 1);
    let comment = rejection_comment(&t.rejected).unwrap();
    assert!(comment.contains("https://files.example.org/result.json.gz"));
    assert!(comment.contains("not allow-listed"));
    assert!(!comment.contains("https://github.com/iocost-benchmark"));
}

#[test]
fn body_without_links() {
    let t = triage_body("no links here");
    assert!(t.accepted.is_empty());
    assert!(t.rejected.is_empty());
}

#[test]
fn rejection_comment_joins_entries() {
    let rs = vec![
        Rejection { url: "u1".to_string(), reason: "r1".to_string() },
        Rejection { url: "u2".to_string(), reason: "r2".to_string() },
    ];
    assert_eq!(
        rejection_comment(&rs).unwrap(),
        "File u1 failed validation: \n\nr1\n\nFile u2 failed validation: \n\nr2"
    );
}

#[test]
fn opened_issue_gives_issue_body() {
    let p = issue_event(IssueEventAction::Opened, IssueState::Open, false);
    assert_eq!(submission_body(&p), Ok(Some("issue body".to_string())));
    let p = issue_event(IssueEventAction::Edited, IssueState::Open, false);
    assert_eq!(submission_body(&p), Ok(Some("issue body".to_string())));
}

#[test]
fn locked_or_closed_issue_is_ignored() {
    let p = issue_event(IssueEventAction::Opened, IssueState::Open, true);
    assert_eq!(submission_body(&p), Ok(None));
    let p = issue_event(IssueEventAction::Opened, IssueState::Closed, false);
    assert_eq!(submission_body(&p), Ok(None));
    let p = issue_event(IssueEventAction::Deleted, IssueState::Closed, false);
    assert_eq!(submission_body(&p), Ok(None));
    let p = issue_event(IssueEventAction::Locked, IssueState::Closed, false);
    assert_eq!(submission_body(&p), Ok(None));
}

#[test]
fn unsupported_events_fail() {
    let p = issue_event(IssueEventAction::Deleted, IssueState::Open, false);
    assert_eq!(submission_body(&p), Err(IngestError::UnsupportedEvent));
    let p = issue_event(IssueEventAction::Closed, IssueState::Open, false);
    assert_eq!(submission_body(&p), Err(IngestError::UnsupportedEvent));
    let p = issue_event(IssueEventAction::Locked, IssueState::Open, false);
    assert_eq!(submission_body(&p), Err(IngestError::UnsupportedEvent));
    let p = issue_event(IssueEventAction::Reopened, IssueState::Open, false);
    assert_eq!(submission_body(&p), Err(IngestError::UnsupportedEvent));
    assert_eq!(submission_body(&ContextPayload::WorkflowDispatch {}), Err(IngestError::UnsupportedEvent));
    assert_eq!(submission_body(&ContextPayload::Unimplemented), Err(IngestError::UnsupportedEvent));
    let p = comment_event(IssueCommentEventAction::Deleted);
    assert_eq!(submission_body(&p), Err(IngestError::UnsupportedEvent));
}

#[test]
fn comment_events_give_comment_body() {
    let p = comment_event(IssueCommentEventAction::Created);
    assert_eq!(submission_body(&p), Ok(Some("comment body".to_string())));
    let p = comment_event(IssueCommentEventAction::Edited);
    assert_eq!(submission_body(&p), Ok(Some("comment body".to_string())));
}

#[test]
fn buckets_count_new_files() {
    let mut groups: Vec<HighLevel> = vec![];
    assert_eq!(record_new_file(&mut groups, "2.2", "Foo_Bar"), 0);
    assert_eq!(record_new_file(&mut groups, "2.2", "Other"), 1);
    assert_eq!(record_new_file(&mut groups, "2.2", "Foo_Bar"), 0);
    assert_eq!(record_new_file(&mut groups, "2.1", "Foo_Bar"), 2);
    assert_eq!(groups.len(), 3);
    assert_eq!(groups[0].new_files, 2);
    assert_eq!(groups[1].new_files, 1);
    assert_eq!(groups[2].version, "2.1");
}

#[test]
fn high_level_counter() {
    let mut h = HighLevel::new("2.2", "Foo_Bar");
    assert_eq!(h.new_files, 0);
    h.increment();
    h.increment();
    assert_eq!(h.new_files, 2);
    assert_eq!(h.summary_line("summary"), "[Foo_Bar (2.2)] 2 new files\nsummary");
}

#[test]
fn commit_message_and_branch() {
    let lines = vec!["[A (2.2)] 1 new files\n".to_string(), "[B (2.2)] 3 new files\nx".to_string()];
    assert_eq!(
        commit_message(17, &lines),
        "Automated update from issue 17\n\nCloses #17\n\n[A (2.2)] 1 new files\n\n[B (2.2)] 3 new files\nx"
    );
    assert_eq!(branch_name(17), "iocost-bot/17");
    assert_eq!(branch_name(0), "iocost-bot/0");
}

#[test]
fn session_fetches_only_allowlisted_links() {
    let body = "https://github.com/a/1.json.gz https://evil.example.com/2.json.gz https://github.com/a/3.json.gz";
    let mut s = IngestSession::start(body);
    assert_eq!(s.rejected().len(), 1);
    assert_eq!(s.rejected()[0].url, "https://evil.example.com/2.json.gz");
    match s.next_action() {
        IngestAction::Fetch(u) => assert_eq!(u, "https://github.com/a/1.json.gz"),
        _ => panic!("expected a fetch"),
    }
    s.record_fetch(FetchOutcome::Stored { version: "2.2".to_string(), model_name: "Foo".to_string() });
    match s.next_action() {
        IngestAction::Fetch(u) => assert_eq!(u, "https://github.com/a/3.json.gz"),
        _ => panic!("expected a fetch"),
    }
    s.record_fetch(FetchOutcome::Failed { reason: "engine said no".to_string() });
    match s.next_action() {
        IngestAction::Comment(c) => {
            assert!(c.contains("https://evil.example.com/2.json.gz"));
            assert!(c.contains("not allow-listed"));
            assert!(c.contains("File https://github.com/a/3.json.gz failed validation: \n\nengine said no"));
            assert!(!c.contains("https://github.com/a/1.json.gz"));
        }
        _ => panic!("expected a comment"),
    }
    s.comment_posted();
    assert!(matches!(s.next_action(), IngestAction::Commit));
    assert_eq!(s.new_buckets().len(), 1);
    assert_eq!(s.new_buckets()[0].new_files, 1);
    s.record_fetch(FetchOutcome::Failed { reason: "late".to_string() });
    assert_eq!(s.rejected().len(), 2);
}

#[test]
fn session_without_links_is_done() {
    let s = IngestSession::start("nothing to see");
    assert!(matches!(s.next_action(), IngestAction::Done));
}
