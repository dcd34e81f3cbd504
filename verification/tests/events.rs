use gh_activity::event::{
    hash_number_string, issue_resource, parse_event, parse_events, payload_kind, shorten_ref,
    CommitComment, CommitCommentPayload, CreatePayload, DeletePayload, Discussion,
    DiscussionPayload, Event, ForkPayload, Forkee, IssueLike, IssuePayload, Member,
    MemberPayload, ParsedEvent, Payload, PayloadKind, PullRequestPayload,
    PullRequestReviewPayload, PushPayload, WatchPayload,
};
use gh_activity::text::decimal_string;

fn s(v: &str) -> Option<String> {
    Some(v.to_string())
}

fn event(event_type: &str, payload: Option<Payload>) -> Event {
    Event {
        event_type: event_type.to_string(),
        repo_name: "octo/repo".to_string(),
        payload,
        public: true,
        created_at: "2024-01-02T03:04:05Z".to_string(),
    }
}

fn parsed(event_type: &str, payload: Payload) -> ParsedEvent {
    parse_event(event(event_type, Some(payload))).expect("event is described")
}

fn parts(p: &ParsedEvent) -> (&str, &str, &str, Option<u64>) {
    (p.ref_action.as_str(), p.ref_resource.as_str(), p.artifact.as_str(), p.count)
}

fn push(ref_field: Option<String>, head: Option<String>, size: Option<u64>) -> Payload {
    Payload::Push(PushPayload { ref_field, head, size })
}

fn issue(title: Option<String>, number: Option<u64>) -> Option<IssueLike> {
    Some(IssueLike { title, number })
}

#[test]
fn payload_kinds_of_types() {
    assert_eq!(payload_kind("CommitCommentEvent"), Some(PayloadKind::CommitComment));
    assert_eq!(payload_kind("CreateEvent"), Some(PayloadKind::Create));
    assert_eq!(payload_kind("DeleteEvent"), Some(PayloadKind::Delete));
    assert_eq!(payload_kind("DiscussionEvent"), Some(PayloadKind::Discussion));
    assert_eq!(payload_kind("ForkEvent"), Some(PayloadKind::Fork));
    assert_eq!(payload_kind("IssueCommentEvent"), Some(PayloadKind::Issue));
    assert_eq!(payload_kind("IssuesEvent"), Some(PayloadKind::Issue));
    assert_eq!(payload_kind("IssueEvent"), Some(PayloadKind::Issue));
    assert_eq!(payload_kind("MemberEvent"), Some(PayloadKind::Member));
    assert_eq!(payload_kind("PullRequestEvent"), Some(PayloadKind::PullRequest));
    assert_eq!(payload_kind("PullRequestReviewEvent"), Some(PayloadKind::PullRequestReview));
    assert_eq!(payload_kind("PushEvent"), Some(PayloadKind::Push));
    assert_eq!(payload_kind("WatchEvent"), Some(PayloadKind::Watch));
    assert_eq!(payload_kind("GollumEvent"), None);
    assert_eq!(payload_kind("pushevent"), None);
    assert_eq!(payload_kind(""), None);
}

#[test]
fn push_to_branch() {
    let p = parsed("PushEvent", push(s("refs/heads/main"), s("abc123"), Some(3)));
    assert_eq!(parts(&p), ("pushed", "main", "commit", Some(3)));
}

#[test]
fn push_to_tag() {
    let p = parsed("PushEvent", push(s("refs/tags/v1.0"), None, None));
    assert_eq!(parts(&p), ("pushed", "v1.0", "commit", None));
}

#[test]
fn push_without_ref_uses_head_then_default() {
    let p = parsed("PushEvent", push(None, s("abc123"), Some(1)));
    assert_eq!(parts(&p), ("pushed", "abc123", "commit", Some(1)));
    let p = parsed("PushEvent", push(None, None, None));
    assert_eq!(parts(&p), ("pushed", "ref", "commit", None));
}

#[test]
fn parsed_event_keeps_source_fields() {
    let p = parsed("WatchEvent", Payload::Watch(WatchPayload { action: None }));
    assert_eq!(p.repo, "octo/repo");
    assert_eq!(p.event_type, "WatchEvent");
    assert!(p.public);
    assert_eq!(p.created_at, "2024-01-02T03:04:05Z");
    assert_eq!(parts(&p), ("started", "repository", "star", None));
}

#[test]
fn create_event_parts() {
    let p = parsed("CreateEvent", Payload::Create(CreatePayload { ref_field: s("feature"), ref_type: s("branch") }));
    assert_eq!(parts(&p), ("created", "feature", "branch", None));
    let p = parsed("CreateEvent", Payload::Create(CreatePayload { ref_field: None, ref_type: s("repository") }));
    assert_eq!(parts(&p), ("created", "repository", "repository", None));
    let p = parsed("CreateEvent", Payload::Create(CreatePayload { ref_field: None, ref_type: None }));
    assert_eq!(parts(&p), ("created", "repository", "repository", None));
}

#[test]
fn delete_event_parts() {
    let p = parsed("DeleteEvent", Payload::Delete(DeletePayload { ref_field: s("old"), ref_type: s("tag") }));
    assert_eq!(parts(&p), ("deleted", "old", "tag", None));
    let p = parsed("DeleteEvent", Payload::Delete(DeletePayload { ref_field: None, ref_type: None }));
    assert_eq!(parts(&p), ("deleted", "ref", "ref", None));
}

#[test]
fn commit_comment_prefers_url_then_path_then_commit() {
    let c = |u: Option<String>, p: Option<String>, id: Option<String>| {
        Payload::CommitComment(CommitCommentPayload {
            action: None,
            comment: Some(CommitComment { html_url: u, path: p, commit_id: id }),
        })
    };
    assert_eq!(parts(&parsed("CommitCommentEvent", c(s("https://x"), s("a.rs"), s("f00")))).1, "https://x");
    assert_eq!(parts(&parsed("CommitCommentEvent", c(None, s("a.rs"), s("f00")))).1, "a.rs");
    assert_eq!(parts(&parsed("CommitCommentEvent", c(None, None, s("f00")))).1, "f00");
    let p = parsed("CommitCommentEvent", Payload::CommitComment(CommitCommentPayload { action: None, comment: None }));
    assert_eq!(parts(&p), ("created", "commit comment", "comment", None));
}

#[test]
fn discussion_event_parts() {
    let p = parsed("DiscussionEvent", Payload::Discussion(DiscussionPayload { action: None, discussion: Some(Discussion { title: s("Ideas") }) }));
    assert_eq!(parts(&p), ("created", "Ideas", "discussion", None));
    let p = parsed("DiscussionEvent", Payload::Discussion(DiscussionPayload { action: s("answered"), discussion: None }));
    assert_eq!(parts(&p), ("answered", "discussion", "discussion", None));
}

#[test]
fn fork_event_parts() {
    let f = |full: Option<String>, name: Option<String>| {
        Payload::Fork(ForkPayload { action: None, forkee: Some(Forkee { full_name: full, name }) })
    };
    assert_eq!(parts(&parsed("ForkEvent", f(s("me/repo"), s("repo")))), ("forked", "me/repo", "fork", None));
    assert_eq!(parts(&parsed("ForkEvent", f(None, s("repo")))), ("forked", "repo", "fork", None));
    assert_eq!(parts(&parsed("ForkEvent", f(None, None))), ("forked", "fork", "fork", None));
}

#[test]
fn issues_event_parts() {
    let p = parsed("IssuesEvent", Payload::Issue(IssuePayload { action: None, issue: issue(s("Crash"), Some(4)) }));
    assert_eq!(parts(&p), ("opened", "Crash", "issue", None));
    let p = parsed("IssueEvent", Payload::Issue(IssuePayload { action: s("closed"), issue: issue(None, Some(42)) }));
    assert_eq!(parts(&p), ("closed", "#42", "issue", None));
    let p = parsed("IssuesEvent", Payload::Issue(IssuePayload { action: None, issue: None }));
    assert_eq!(parts(&p), ("opened", "issue", "issue", None));
}

#[test]
fn issue_comment_event_parts() {
    let p = parsed("IssueCommentEvent", Payload::Issue(IssuePayload { action: None, issue: issue(s("Crash"), None) }));
    assert_eq!(parts(&p), ("created", "Crash", "comment", None));
}

#[test]
fn member_event_parts() {
    let p = parsed("MemberEvent", Payload::Member(MemberPayload { action: None, member: Some(Member { login: s("alice") }) }));
    assert_eq!(parts(&p), ("added", "alice", "member", None));
    let p = parsed("MemberEvent", Payload::Member(MemberPayload { action: None, member: None }));
    assert_eq!(parts(&p), ("added", "member", "member", None));
}

#[test]
fn pull_request_event_parts() {
    let pr = |pull_request: Option<IssueLike>, number: Option<u64>| {
        Payload::PullRequest(PullRequestPayload { action: None, pull_request, number })
    };
    assert_eq!(parts(&parsed("PullRequestEvent", pr(issue(s("Fix"), Some(1)), Some(2)))), ("opened", "Fix", "PR", None));
    assert_eq!(parts(&parsed("PullRequestEvent", pr(issue(None, Some(7)), Some(2)))), ("opened", "#7", "PR", None));
    assert_eq!(parts(&parsed("PullRequestEvent", pr(None, Some(12)))), ("opened", "#12", "PR", None));
    assert_eq!(parts(&parsed("PullRequestEvent", pr(None, None))), ("opened", "pull request", "PR", None));
    assert_eq!(parts(&parsed("PullRequestEvent", pr(issue(s("pull request"), None), Some(5)))), ("opened", "#5", "PR", None));
}

#[test]
fn pull_request_review_event_parts() {
    let p = parsed("PullRequestReviewEvent", Payload::PullRequestReview(PullRequestReviewPayload { action: None, pull_request: issue(None, Some(9)) }));
    assert_eq!(parts(&p), ("created", "#9", "review", None));
    let p = parsed("PullRequestReviewEvent", Payload::PullRequestReview(PullRequestReviewPayload { action: s("dismissed"), pull_request: None }));
    assert_eq!(parts(&p), ("dismissed", "pull request", "review", None));
}

#[test]
fn watch_event_keeps_given_action() {
    let p = parsed("WatchEvent", Payload::Watch(WatchPayload { action: s("starred") }));
    assert_eq!(parts(&p), ("starred", "repository", "star", None));
}

#[test]
fn unknown_type_is_skipped() {
    assert!(parse_event(event("GollumEvent", Some(Payload::Watch(WatchPayload { action: None })))).is_none());
    assert!(parse_event(event("GollumEvent", None)).is_none());
}

#[test]
fn undecoded_payload_is_skipped() {
    assert!(parse_event(event("PushEvent", None)).is_none());
}

#[test]
fn payload_of_another_shape_is_skipped() {
    assert!(parse_event(event("PushEvent", Some(Payload::Watch(WatchPayload { action: None })))).is_none());
    assert!(parse_event(event("IssueCommentEvent", Some(push(None, None, None)))).is_none());
}

#[test]
fn parse_events_keeps_order_and_drops_skipped() {
    let events = vec![
        event("PushEvent", Some(push(s("refs/heads/a"), None, Some(1)))),
        event("GollumEvent", None),
        event("WatchEvent", Some(Payload::Watch(WatchPayload { action: None }))),
        event("PushEvent", None),
        event("PushEvent", Some(push(s("refs/heads/b"), None, Some(2)))),
    ];
    let out = parse_events(events);
    let kinds: Vec<(&str, &str)> = out.iter().map(|p| (p.event_type.as_str(), p.ref_resource.as_str())).collect();
    assert_eq!(kinds, vec![("PushEvent", "a"), ("WatchEvent", "repository"), ("PushEvent", "b")]);
}

#[test]
fn parse_events_of_empty_list() {
    assert!(parse_events(Vec::new()).is_empty());
}

#[test]
fn parse_events_distributes_over_concatenation() {
    let make = || {
        (
            vec![event("PushEvent", Some(push(s("refs/tags/t"), None, None))), event("X", None)],
            vec![event("WatchEvent", Some(Payload::Watch(WatchPayload { action: None })))],
        )
    };
    let (a, b) = make();
    let mut joined = a;
    joined.extend(b);
    let whole: Vec<String> = parse_events(joined).into_iter().map(|p| p.ref_resource).collect();
    let (a, b) = make();
    let mut parts: Vec<String> = parse_events(a).into_iter().map(|p| p.ref_resource).collect();
    parts.extend(parse_events(b).into_iter().map(|p| p.ref_resource));
    assert_eq!(whole, parts);
}

#[test]
fn shorten_ref_cases() {
    assert_eq!(shorten_ref("refs/heads/main".to_string()), "main");
    assert_eq!(shorten_ref("refs/tags/v2".to_string()), "v2");
    assert_eq!(shorten_ref("refs/pull/1/head".to_string()), "refs/pull/1/head");
    assert_eq!(shorten_ref("main".to_string()), "main");
    assert_eq!(shorten_ref("refs/heads/refs/tags/x".to_string()), "refs/tags/x");
    assert_eq!(shorten_ref("refs/heads/".to_string()), "");
    assert_eq!(shorten_ref("".to_string()), "");
}

#[test]
fn issue_resource_cases() {
    assert_eq!(issue_resource(issue(s("Title"), Some(3)), "issue"), "Title");
    assert_eq!(issue_resource(issue(None, Some(3)), "issue"), "#3");
    assert_eq!(issue_resource(issue(None, None), "issue"), "issue");
    assert_eq!(issue_resource(None, "pull request"), "pull request");
}

#[test]
fn decimal_notation() {
    assert_eq!(decimal_string(0), "0");
    assert_eq!(decimal_string(7), "7");
    assert_eq!(decimal_string(10), "10");
    assert_eq!(decimal_string(1234567890), "1234567890");
    assert_eq!(decimal_string(u64::MAX), u64::MAX.to_string());
    assert_eq!(hash_number_string(42), "#42");
}
