//! GitHub events as the API reports them, and their decoding into the
//! uniform shape that the descriptions are made from.
//!
//! An event carries a type name such as `PushEvent` and a payload whose
//! fields depend on that type. Which payload shape belongs to which type is
//! decided by [`payload_kind`]; the payload itself arrives already decoded
//! into the matching [`Payload`] variant, or as `None` where it did not decode
//! into that shape.

use vstd::prelude::*;
use crate::text::{decimal, decimal_string, str_eq, strip_prefix};

verus! {

/// The shape of a payload, one per family of event types.
#[derive(Clone, Copy, Debug, PartialEq, Eq, Structural)]
pub enum PayloadKind {
    CommitComment,
    Create,
    Delete,
    Discussion,
    Fork,
    Issue,
    Member,
    PullRequest,
    PullRequestReview,
    Push,
    Watch,
}

/// The comment of a `CommitCommentEvent`.
#[derive(Debug)]
pub struct CommitComment {
    pub html_url: Option<String>,
    pub path: Option<String>,
    pub commit_id: Option<String>,
}

/// Payload of a `CommitCommentEvent`.
#[derive(Debug)]
pub struct CommitCommentPayload {
    pub action: Option<String>,
    pub comment: Option<CommitComment>,
}

/// Payload of a `CreateEvent`.
#[derive(Debug)]
pub struct CreatePayload {
    pub ref_field: Option<String>,
    pub ref_type: Option<String>,
}

/// Payload of a `DeleteEvent`.
#[derive(Debug)]
pub struct DeletePayload {
    pub ref_field: Option<String>,
    pub ref_type: Option<String>,
}

/// The discussion of a `DiscussionEvent`.
#[derive(Debug)]
pub struct Discussion {
    pub title: Option<String>,
}

/// Payload of a `DiscussionEvent`.
#[derive(Debug)]
pub struct DiscussionPayload {
    pub action: Option<String>,
    pub discussion: Option<Discussion>,
}

/// The new repository of a `ForkEvent`.
#[derive(Debug)]
pub struct Forkee {
    pub full_name: Option<String>,
    pub name: Option<String>,
}

/// Payload of a `ForkEvent`.
#[derive(Debug)]
pub struct ForkPayload {
    pub action: Option<String>,
    pub forkee: Option<Forkee>,
}

/// An issue or a pull request, as far as the descriptions use it.
#[derive(Debug)]
pub struct IssueLike {
    pub title: Option<String>,
    pub number: Option<u64>,
}

/// Payload of an `IssuesEvent`, `IssueEvent` or `IssueCommentEvent`.
#[derive(Debug)]
pub struct IssuePayload {
    pub action: Option<String>,
    pub issue: Option<IssueLike>,
}

/// The collaborator of a `MemberEvent`.
#[derive(Debug)]
pub struct Member {
    pub login: Option<String>,
}

/// Payload of a `MemberEvent`.
#[derive(Debug)]
pub struct MemberPayload {
    pub action: Option<String>,
    pub member: Option<Member>,
}

/// Payload of a `PullRequestEvent`.
#[derive(Debug)]
pub struct PullRequestPayload {
    pub action: Option<String>,
    pub pull_request: Option<IssueLike>,
    pub number: Option<u64>,
}

/// Payload of a `PullRequestReviewEvent`.
#[derive(Debug)]
pub struct PullRequestReviewPayload {
    pub action: Option<String>,
    pub pull_request: Option<IssueLike>,
}

/// Payload of a `PushEvent`.
#[derive(Debug)]
pub struct PushPayload {
    pub ref_field: Option<String>,
    pub head: Option<String>,
    pub size: Option<u64>,
}

/// Payload of a `WatchEvent`.
#[derive(Debug)]
pub struct WatchPayload {
    pub action: Option<String>,
}

/// A payload decoded into the shape of its event type.
#[derive(Debug)]
pub enum Payload {
    CommitComment(CommitCommentPayload),
    Create(CreatePayload),
    Delete(DeletePayload),
    Discussion(DiscussionPayload),
    Fork(ForkPayload),
    Issue(IssuePayload),
    Member(MemberPayload),
    PullRequest(PullRequestPayload),
    PullRequestReview(PullRequestReviewPayload),
    Push(PushPayload),
    Watch(WatchPayload),
}

/// An event of the GitHub events API, with the fields that the descriptions
/// read. `payload` is `None` where the payload did not decode into the shape
/// that [`payload_kind`] names for `event_type`.
#[derive(Debug)]
pub struct Event {
    pub event_type: String,
    pub repo_name: String,
    pub payload: Option<Payload>,
    pub public: bool,
    pub created_at: String,
}

/// An event in the uniform shape: what was done (`ref_action`), to what
/// (`ref_resource`), which kind of thing that is (`artifact`), and for pushes
/// how many commits (`count`).
#[derive(Debug)]
pub struct ParsedEvent {
    pub repo: String,
    pub event_type: String,
    pub artifact: String,
    pub ref_action: String,
    pub ref_resource: String,
    pub count: Option<u64>,
    pub public: bool,
    pub created_at: String,
}

/// The model of a [`ParsedEvent`]: its strings as character sequences.
pub struct ParsedEventView {
    pub repo: Seq<char>,
    pub event_type: Seq<char>,
    pub artifact: Seq<char>,
    pub ref_action: Seq<char>,
    pub ref_resource: Seq<char>,
    pub count: Option<u64>,
    pub public: bool,
    pub created_at: Seq<char>,
}

impl View for ParsedEvent {
    type V = ParsedEventView;

    open spec fn view(&self) -> ParsedEventView {
        ParsedEventView {
            repo: self.repo@,
            event_type: self.event_type@,
            artifact: self.artifact@,
            ref_action: self.ref_action@,
            ref_resource: self.ref_resource@,
            count: self.count,
            public: self.public,
            created_at: self.created_at@,
        }
    }
}

/// The characters of an optional string.
pub open spec fn opt_view(o: Option<String>) -> Option<Seq<char>> {
    match o {
        Some(s) => Some(s@),
        None => None,
    }
}

/// `o`, or `d` where `o` is absent.
pub open spec fn or_else(o: Option<Seq<char>>, d: Seq<char>) -> Seq<char> {
    match o {
        Some(s) => s,
        None => d,
    }
}

/// `a` where it is present, else `b`.
pub open spec fn either(a: Option<Seq<char>>, b: Option<Seq<char>>) -> Option<Seq<char>> {
    match a {
        Some(s) => Some(s),
        None => b,
    }
}

/// `#` followed by the decimal notation of `n`.
pub open spec fn hash_number(n: u64) -> Seq<char> {
    seq!['#'] + decimal(n as nat)
}

/// The payload shape that belongs to an event type, if the type is one the
/// tool describes.
pub open spec fn kind_of_type(t: Seq<char>) -> Option<PayloadKind> {
    if t == "CommitCommentEvent"@ {
        Some(PayloadKind::CommitComment)
    } else if t == "CreateEvent"@ {
        Some(PayloadKind::Create)
    } else if t == "DeleteEvent"@ {
        Some(PayloadKind::Delete)
    } else if t == "DiscussionEvent"@ {
        Some(PayloadKind::Discussion)
    } else if t == "ForkEvent"@ {
        Some(PayloadKind::Fork)
    } else if t == "IssueCommentEvent"@ || t == "IssuesEvent"@ || t == "IssueEvent"@ {
        Some(PayloadKind::Issue)
    } else if t == "MemberEvent"@ {
        Some(PayloadKind::Member)
    } else if t == "PullRequestEvent"@ {
        Some(PayloadKind::PullRequest)
    } else if t == "PullRequestReviewEvent"@ {
        Some(PayloadKind::PullRequestReview)
    } else if t == "PushEvent"@ {
        Some(PayloadKind::Push)
    } else if t == "WatchEvent"@ {
        Some(PayloadKind::Watch)
    } else {
        None
    }
}

/// The shape of a decoded payload.
pub open spec fn kind_of_payload(p: Payload) -> PayloadKind {
    match p {
        Payload::CommitComment(_) => PayloadKind::CommitComment,
        Payload::Create(_) => PayloadKind::Create,
        Payload::Delete(_) => PayloadKind::Delete,
        Payload::Discussion(_) => PayloadKind::Discussion,
        Payload::Fork(_) => PayloadKind::Fork,
        Payload::Issue(_) => PayloadKind::Issue,
        Payload::Member(_) => PayloadKind::Member,
        Payload::PullRequest(_) => PayloadKind::PullRequest,
        Payload::PullRequestReview(_) => PayloadKind::PullRequestReview,
        Payload::Push(_) => PayloadKind::Push,
        Payload::Watch(_) => PayloadKind::Watch,
    }
}

/// The payload shape into which the payload of an event of type
/// `event_type` is decoded, or `None` for a type the tool skips.
pub fn payload_kind(event_type: &str) -> (res: Option<PayloadKind>)
    ensures
        res == kind_of_type(event_type@),
{
    if str_eq(event_type, "CommitCommentEvent") {
        Some(PayloadKind::CommitComment)
    } else if str_eq(event_type, "CreateEvent") {
        Some(PayloadKind::Create)
    } else if str_eq(event_type, "DeleteEvent") {
        Some(PayloadKind::Delete)
    } else if str_eq(event_type, "DiscussionEvent") {
        Some(PayloadKind::Discussion)
    } else if str_eq(event_type, "ForkEvent") {
        Some(PayloadKind::Fork)
    } else if str_eq(event_type, "IssueCommentEvent") || str_eq(event_type, "IssuesEvent")
        || str_eq(event_type, "IssueEvent") {
        Some(PayloadKind::Issue)
    } else if str_eq(event_type, "MemberEvent") {
        Some(PayloadKind::Member)
    } else if str_eq(event_type, "PullRequestEvent") {
        Some(PayloadKind::PullRequest)
    } else if str_eq(event_type, "PullRequestReviewEvent") {
        Some(PayloadKind::PullRequestReview)
    } else if str_eq(event_type, "PushEvent") {
        Some(PayloadKind::Push)
    } else if str_eq(event_type, "WatchEvent") {
        Some(PayloadKind::Watch)
    } else {
        None
    }
}

impl Payload {
    /// The shape of this payload.
    pub fn kind(&self) -> (res: PayloadKind)
        ensures
            res == kind_of_payload(*self),
    {
        match self {
            Payload::CommitComment(_) => PayloadKind::CommitComment,
            Payload::Create(_) => PayloadKind::Create,
            Payload::Delete(_) => PayloadKind::Delete,
            Payload::Discussion(_) => PayloadKind::Discussion,
            Payload::Fork(_) => PayloadKind::Fork,
            Payload::Issue(_) => PayloadKind::Issue,
            Payload::Member(_) => PayloadKind::Member,
            Payload::PullRequest(_) => PayloadKind::PullRequest,
            Payload::PullRequestReview(_) => PayloadKind::PullRequestReview,
            Payload::Push(_) => PayloadKind::Push,
            Payload::Watch(_) => PayloadKind::Watch,
        }
    }
}

fn or_default(o: Option<String>, d: &str) -> (res: String)
    ensures
        res@ == or_else(opt_view(o), d@),
{
    match o {
        Some(s) => s,
        None => String::from_str(d),
    }
}

fn first_of(a: Option<String>, b: Option<String>) -> (res: Option<String>)
    ensures
        opt_view(res) == either(opt_view(a), opt_view(b)),
{
    match a {
        Some(s) => Some(s),
        None => b,
    }
}

/// `#` followed by the decimal notation of `n`, as `format!("#{}", n)`.
pub fn hash_number_string(n: u64) -> (res: String)
    ensures
        res@ == hash_number(n),
{
    let digits = decimal_string(n);
    proof {
        reveal_strlit("#");
    }
    String::from_str("#").concat(digits.as_str())
}

/// What names an issue or pull request: its title, else `#` and its number,
/// else `fallback`.
pub open spec fn issue_label(issue: Option<IssueLike>, fallback: Seq<char>) -> Seq<char> {
    match issue {
        Some(i) => match i.title {
            Some(t) => t@,
            None => match i.number {
                Some(n) => hash_number(n),
                None => fallback,
            },
        },
        None => fallback,
    }
}

/// Names an issue or pull request by its title, else by `#` and its number,
/// else by `fallback`.
pub fn issue_resource(issue: Option<IssueLike>, fallback: &str) -> (res: String)
    ensures
        res@ == issue_label(issue, fallback@),
{
    if let Some(issue) = issue {
        if let Some(title) = issue.title {
            return title;
        }
        if let Some(number) = issue.number {
            return hash_number_string(number);
        }
    }
    String::from_str(fallback)
}

/// A git reference without its `refs/heads/` or `refs/tags/` prefix.
pub open spec fn short_ref(v: Seq<char>) -> Seq<char> {
    if "refs/heads/"@.is_prefix_of(v) {
        v.skip("refs/heads/"@.len() as int)
    } else if "refs/tags/"@.is_prefix_of(v) {
        v.skip("refs/tags/"@.len() as int)
    } else {
        v
    }
}

/// Shortens a branch or tag reference to its name: `refs/heads/main`
/// becomes `main`, `refs/tags/v1` becomes `v1`; other values are kept.
pub fn shorten_ref(value: String) -> (res: String)
    ensures
        res@ == short_ref(value@),
{
    if let Some(stripped) = strip_prefix(value.as_str(), "refs/heads/") {
        return stripped;
    }
    if let Some(stripped) = strip_prefix(value.as_str(), "refs/tags/") {
        return stripped;
    }
    value
}


/// What an event did, to what, the kind of that thing, and the number of
/// commits: `(action, resource, artifact, count)`. Where the payload leaves a
/// part out, each event type has its own default.
pub open spec fn event_details(event_type: Seq<char>, payload: Payload) -> (
    Seq<char>,
    Seq<char>,
    Seq<char>,
    Option<u64>,
) {
    match payload {
        Payload::CommitComment(p) => (
            or_else(opt_view(p.action), "created"@),
            or_else(
                match p.comment {
                    Some(c) => either(
                        either(opt_view(c.html_url), opt_view(c.path)),
                        opt_view(c.commit_id),
                    ),
                    None => None,
                },
                "commit comment"@,
            ),
            "comment"@,
            None,
        ),
        Payload::Create(p) => (
            "created"@,
            or_else(either(opt_view(p.ref_field), opt_view(p.ref_type)), "repository"@),
            or_else(opt_view(p.ref_type), "repository"@),
            None,
        ),
        Payload::Delete(p) => (
            "deleted"@,
            or_else(either(opt_view(p.ref_field), opt_view(p.ref_type)), "ref"@),
            or_else(opt_view(p.ref_type), "ref"@),
            None,
        ),
        Payload::Discussion(p) => (
            or_else(opt_view(p.action), "created"@),
            or_else(
                match p.discussion {
                    Some(d) => opt_view(d.title),
                    None => None,
                },
                "discussion"@,
            ),
            "discussion"@,
            None,
        ),
        Payload::Fork(p) => (
            or_else(opt_view(p.action), "forked"@),
            or_else(
                match p.forkee {
                    Some(f) => either(opt_view(f.full_name), opt_view(f.name)),
                    None => None,
                },
                "fork"@,
            ),
            "fork"@,
            None,
        ),
        Payload::Issue(p) => if event_type == "IssueCommentEvent"@ {
            (
                or_else(opt_view(p.action), "created"@),
                issue_label(p.issue, "issue"@),
                "comment"@,
                None,
            )
        } else {
            (or_else(opt_view(p.action), "opened"@), issue_label(p.issue, "issue"@), "issue"@, None)
        },
        Payload::Member(p) => (
            or_else(opt_view(p.action), "added"@),
            or_else(
                match p.member {
                    Some(m) => opt_view(m.login),
                    None => None,
                },
                "member"@,
            ),
            "member"@,
            None,
        ),
        Payload::PullRequest(p) => (
            or_else(opt_view(p.action), "opened"@),
            pull_request_label(p),
            "PR"@,
            None,
        ),
        Payload::PullRequestReview(p) => (
            or_else(opt_view(p.action), "created"@),
            issue_label(p.pull_request, "pull request"@),
            "review"@,
            None,
        ),
        Payload::Push(p) => (
            "pushed"@,
            or_else(
                either(
                    match p.ref_field {
                        Some(r) => Some(short_ref(r@)),
                        None => None,
                    },
                    opt_view(p.head),
                ),
                "ref"@,
            ),
            "commit"@,
            p.size,
        ),
        Payload::Watch(p) => (or_else(opt_view(p.action), "started"@), "repository"@, "star"@, None),
    }
}

/// What names the pull request of a `PullRequestEvent`: as for an issue,
/// except that where that gives only the fallback "pull request", the
/// payload's own number is used if it has one.
pub open spec fn pull_request_label(p: PullRequestPayload) -> Seq<char> {
    let r = issue_label(p.pull_request, "pull request"@);
    if r == "pull request"@ {
        match p.number {
            Some(n) => hash_number(n),
            None => r,
        }
    } else {
        r
    }
}

fn pull_request_resource(p: PullRequestPayload) -> (res: String)
    ensures
        res@ == pull_request_label(p),
{
    let r = issue_resource(p.pull_request, "pull request");
    if str_eq(r.as_str(), "pull request") {
        match p.number {
            Some(n) => hash_number_string(n),
            None => r,
        }
    } else {
        r
    }
}

fn details(event_type: &str, payload: Payload) -> (res: (String, String, String, Option<u64>))
    ensures
        ({
            let d = event_details(event_type@, payload);
            res.0@ == d.0 && res.1@ == d.1 && res.2@ == d.2 && res.3 == d.3
        }),
{
    match payload {
        Payload::CommitComment(p) => {
            let action = or_default(p.action, "created");
            let found = match p.comment {
                Some(c) => first_of(first_of(c.html_url, c.path), c.commit_id),
                None => None,
            };
            (action, or_default(found, "commit comment"), String::from_str("comment"), None)
        },
        Payload::Create(p) => {
            let artifact = or_default(p.ref_type.clone(), "repository");
            let resource = or_default(first_of(p.ref_field, p.ref_type), "repository");
            (String::from_str("created"), resource, artifact, None)
        },
        Payload::Delete(p) => {
            let artifact = or_default(p.ref_type.clone(), "ref");
            let resource = or_default(first_of(p.ref_field, p.ref_type), "ref");
            (String::from_str("deleted"), resource, artifact, None)
        },
        Payload::Discussion(p) => {
            let action = or_default(p.action, "created");
            let found = match p.discussion {
                Some(d) => d.title,
                None => None,
            };
            (action, or_default(found, "discussion"), String::from_str("discussion"), None)
        },
        Payload::Fork(p) => {
            let action = or_default(p.action, "forked");
            let found = match p.forkee {
                Some(f) => first_of(f.full_name, f.name),
                None => None,
            };
            (action, or_default(found, "fork"), String::from_str("fork"), None)
        },
        Payload::Issue(p) => {
            if str_eq(event_type, "IssueCommentEvent") {
                let action = or_default(p.action, "created");
                (action, issue_resource(p.issue, "issue"), String::from_str("comment"), None)
            } else {
                let action = or_default(p.action, "opened");
                (action, issue_resource(p.issue, "issue"), String::from_str("issue"), None)
            }
        },
        Payload::Member(p) => {
            let action = or_default(p.action, "added");
            let found = match p.member {
                Some(m) => m.login,
                None => None,
            };
            (action, or_default(found, "member"), String::from_str("member"), None)
        },
        Payload::PullRequest(p) => {
            let action = or_default(p.action.clone(), "opened");
            (action, pull_request_resource(p), String::from_str("PR"), None)
        },
        Payload::PullRequestReview(p) => {
            let action = or_default(p.action, "created");
            (
                action,
                issue_resource(p.pull_request, "pull request"),
                String::from_str("review"),
                None,
            )
        },
        Payload::Push(p) => {
            let short = match p.ref_field {
                Some(r) => Some(shorten_ref(r)),
                None => None,
            };
            let resource = or_default(first_of(short, p.head), "ref");
            (String::from_str("pushed"), resource, String::from_str("commit"), p.size)
        },
        Payload::Watch(p) => {
            let action = or_default(p.action, "started");
            (action, String::from_str("repository"), String::from_str("star"), None)
        },
    }
}

/// The uniform shape of `e`, or `None` where its type is not one the tool
/// describes or its payload did not decode into the shape of that type.
pub open spec fn parsed_event(e: Event) -> Option<ParsedEventView> {
    match kind_of_type(e.event_type@) {
        Some(k) => match e.payload {
            Some(p) => if kind_of_payload(p) == k {
                let d = event_details(e.event_type@, p);
                Some(
                    ParsedEventView {
                        repo: e.repo_name@,
                        event_type: e.event_type@,
                        artifact: d.2,
                        ref_action: d.0,
                        ref_resource: d.1,
                        count: d.3,
                        public: e.public,
                        created_at: e.created_at@,
                    },
                )
            } else {
                None
            },
            None => None,
        },
        None => None,
    }
}

/// The model of an optional parsed event.
pub open spec fn opt_parsed_view(o: Option<ParsedEvent>) -> Option<ParsedEventView> {
    match o {
        Some(p) => Some(p@),
        None => None,
    }
}

/// Brings an event into the uniform shape, or skips it (`None`) where its
/// type is not described or its payload did not decode.
pub fn parse_event(event: Event) -> (res: Option<ParsedEvent>)
    ensures
        opt_parsed_view(res) == parsed_event(event),
{
    let Event { event_type, repo_name, payload, public, created_at } = event;
    let kind = match payload_kind(event_type.as_str()) {
        Some(k) => k,
        None => return None,
    };
    let payload = match payload {
        Some(p) => p,
        None => return None,
    };
    if payload.kind() != kind {
        return None;
    }
    let (action, resource, artifact, count) = details(event_type.as_str(), payload);
    Some(
        ParsedEvent {
            repo: repo_name,
            event_type,
            artifact,
            ref_action: action,
            ref_resource: resource,
            count,
            public,
            created_at,
        },
    )
}


/// The uniform shapes of the events in `events` that are described, in
/// their order.
pub open spec fn parsed_events(events: Seq<Event>) -> Seq<ParsedEventView>
    decreases events.len(),
{
    if events.len() == 0 {
        Seq::empty()
    } else {
        let rest = parsed_events(events.drop_last());
        match parsed_event(events.last()) {
            Some(v) => rest.push(v),
            None => rest,
        }
    }
}

/// Brings every event into the uniform shape, dropping those that are
/// skipped, and keeps their order.
pub fn parse_events(events: Vec<Event>) -> (res: Vec<ParsedEvent>)
    ensures
        res@.map_values(|p: ParsedEvent| p@) == parsed_events(events@),
{
    let ghost all = events@;
    let mut events = events;
    let mut pending: Vec<Event> = Vec::new();
    while events.len() > 0
        invariant
            events@ + pending@.reverse() == all,
        decreases events.len(),
    {
        let ghost before = events@;
        let ghost pending_before = pending@;
        match events.pop() {
            Some(e) => {
                pending.push(e);
                assert(before =~= events@.push(e));
                assert(pending@.reverse() =~= seq![e] + pending_before.reverse());
                assert(events@ + pending@.reverse() =~= before + pending_before.reverse());
            },
            None => {},
        }
    }
    assert(pending@.reverse() =~= all);
    let mut out: Vec<ParsedEvent> = Vec::new();
    let ghost mut k: int = 0;
    while pending.len() > 0
        invariant
            0 <= k <= all.len(),
            all.take(k) + pending@.reverse() == all,
            out@.map_values(|p: ParsedEvent| p@) == parsed_events(all.take(k)),
        decreases pending.len(),
    {
        let ghost pending_before = pending@;
        match pending.pop() {
            Some(e) => {
                proof {
                    assert(pending_before =~= pending@.push(e));
                    assert(pending_before.reverse() =~= seq![e] + pending@.reverse());
                    assert(all.take(k) + pending_before.reverse() == all);
                    assert(all[k] == e) by {
                        assert((all.take(k) + pending_before.reverse())[k] == e);
                    }
                    assert(all.take(k + 1) + pending@.reverse() =~= all);
                    assert(all.take(k + 1).drop_last() =~= all.take(k));
                    assert(all.take(k + 1).last() == e);
                }
                let ghost out_before = out@;
                match parse_event(e) {
                    Some(p) => {
                        out.push(p);
                        assert(out@.map_values(|p: ParsedEvent| p@) =~= out_before.map_values(
                            |p: ParsedEvent| p@,
                        ).push(p@));
                    },
                    None => {},
                }
                proof {
                    k = k + 1;
                }
            },
            None => {},
        }
    }
    assert(all.take(k) =~= all);
    out
}


/// Decoding keeps where an event comes from: a described event keeps its
/// repository, type, visibility and time, only a push carries a commit
/// count, and an event is described exactly when its type is one the tool
/// knows and its payload has the shape of that type.
pub proof fn lemma_parsed_event_keeps_source(e: Event)
    ensures
        parsed_event(e) is Some <==> (e.payload matches Some(p) && kind_of_type(e.event_type@)
            == Some(kind_of_payload(p))),
        parsed_event(e) matches Some(v) ==> {
            &&& v.repo == e.repo_name@
            &&& v.event_type == e.event_type@
            &&& v.public == e.public
            &&& v.created_at == e.created_at@
            &&& v.count is Some ==> e.event_type@ == "PushEvent"@
        },
{
}

/// Decoding a list keeps its order: the events described from `a` followed
/// by `b` are those described from `a` followed by those from `b`.
pub proof fn lemma_parsed_events_append(a: Seq<Event>, b: Seq<Event>)
    ensures
        parsed_events(a + b) == parsed_events(a) + parsed_events(b),
    decreases b.len(),
{
    if b.len() == 0 {
        assert(a + b =~= a);
        assert(parsed_events(a) + parsed_events(b) =~= parsed_events(a));
    } else {
        assert((a + b).drop_last() =~= a + b.drop_last());
        assert((a + b).last() == b.last());
        lemma_parsed_events_append(a, b.drop_last());
        match parsed_event(b.last()) {
            Some(v) => {
                assert(parsed_events(a) + parsed_events(b.drop_last()).push(v) =~= (parsed_events(a)
                    + parsed_events(b.drop_last())).push(v));
            },
            None => {},
        }
    }
}

/// A shortened reference is what remains at the end of the reference: only
/// a leading `refs/heads/` or `refs/tags/` is ever taken off.
pub proof fn lemma_short_ref_is_suffix(v: Seq<char>)
    ensures
        short_ref(v).is_suffix_of(v),
        short_ref(v) == v || "refs/heads/"@.is_prefix_of(v) || "refs/tags/"@.is_prefix_of(v),
{
    if "refs/heads/"@.is_prefix_of(v) {
        assert(short_ref(v) =~= v.subrange(v.len() - short_ref(v).len(), v.len() as int));
    } else if "refs/tags/"@.is_prefix_of(v) {
        assert(short_ref(v) =~= v.subrange(v.len() - short_ref(v).len(), v.len() as int));
    } else {
        assert(v =~= v.subrange(0, v.len() as int));
    }
}



/// The event type names the tool knows are all different.
pub proof fn lemma_type_names_distinct()
    ensures
        "CommitCommentEvent"@ != "CreateEvent"@,
        "CommitCommentEvent"@ != "DeleteEvent"@,
        "CommitCommentEvent"@ != "DiscussionEvent"@,
        "CommitCommentEvent"@ != "ForkEvent"@,
        "CommitCommentEvent"@ != "IssueCommentEvent"@,
        "CommitCommentEvent"@ != "IssuesEvent"@,
        "CommitCommentEvent"@ != "IssueEvent"@,
        "CommitCommentEvent"@ != "MemberEvent"@,
        "CommitCommentEvent"@ != "PullRequestEvent"@,
        "CommitCommentEvent"@ != "PullRequestReviewEvent"@,
        "CommitCommentEvent"@ != "PushEvent"@,
        "CommitCommentEvent"@ != "WatchEvent"@,
        "CreateEvent"@ != "DeleteEvent"@,
        "CreateEvent"@ != "DiscussionEvent"@,
        "CreateEvent"@ != "ForkEvent"@,
        "CreateEvent"@ != "IssueCommentEvent"@,
        "CreateEvent"@ != "IssuesEvent"@,
        "CreateEvent"@ != "IssueEvent"@,
        "CreateEvent"@ != "MemberEvent"@,
        "CreateEvent"@ != "PullRequestEvent"@,
        "CreateEvent"@ != "PullRequestReviewEvent"@,
        "CreateEvent"@ != "PushEvent"@,
        "CreateEvent"@ != "WatchEvent"@,
        "DeleteEvent"@ != "DiscussionEvent"@,
        "DeleteEvent"@ != "ForkEvent"@,
        "DeleteEvent"@ != "IssueCommentEvent"@,
        "DeleteEvent"@ != "IssuesEvent"@,
        "DeleteEvent"@ != "IssueEvent"@,
        "DeleteEvent"@ != "MemberEvent"@,
        "DeleteEvent"@ != "PullRequestEvent"@,
        "DeleteEvent"@ != "PullRequestReviewEvent"@,
        "DeleteEvent"@ != "PushEvent"@,
        "DeleteEvent"@ != "WatchEvent"@,
        "DiscussionEvent"@ != "ForkEvent"@,
        "DiscussionEvent"@ != "IssueCommentEvent"@,
        "DiscussionEvent"@ != "IssuesEvent"@,
        "DiscussionEvent"@ != "IssueEvent"@,
        "DiscussionEvent"@ != "MemberEvent"@,
        "DiscussionEvent"@ != "PullRequestEvent"@,
        "DiscussionEvent"@ != "PullRequestReviewEvent"@,
        "DiscussionEvent"@ != "PushEvent"@,
        "DiscussionEvent"@ != "WatchEvent"@,
        "ForkEvent"@ != "IssueCommentEvent"@,
        "ForkEvent"@ != "IssuesEvent"@,
        "ForkEvent"@ != "IssueEvent"@,
        "ForkEvent"@ != "MemberEvent"@,
        "ForkEvent"@ != "PullRequestEvent"@,
        "ForkEvent"@ != "PullRequestReviewEvent"@,
        "ForkEvent"@ != "PushEvent"@,
        "ForkEvent"@ != "WatchEvent"@,
        "IssueCommentEvent"@ != "IssuesEvent"@,
        "IssueCommentEvent"@ != "IssueEvent"@,
        "IssueCommentEvent"@ != "MemberEvent"@,
        "IssueCommentEvent"@ != "PullRequestEvent"@,
        "IssueCommentEvent"@ != "PullRequestReviewEvent"@,
        "IssueCommentEvent"@ != "PushEvent"@,
        "IssueCommentEvent"@ != "WatchEvent"@,
        "IssuesEvent"@ != "IssueEvent"@,
        "IssuesEvent"@ != "MemberEvent"@,
        "IssuesEvent"@ != "PullRequestEvent"@,
        "IssuesEvent"@ != "PullRequestReviewEvent"@,
        "IssuesEvent"@ != "PushEvent"@,
        "IssuesEvent"@ != "WatchEvent"@,
        "IssueEvent"@ != "MemberEvent"@,
        "IssueEvent"@ != "PullRequestEvent"@,
        "IssueEvent"@ != "PullRequestReviewEvent"@,
        "IssueEvent"@ != "PushEvent"@,
        "IssueEvent"@ != "WatchEvent"@,
        "MemberEvent"@ != "PullRequestEvent"@,
        "MemberEvent"@ != "PullRequestReviewEvent"@,
        "MemberEvent"@ != "PushEvent"@,
        "MemberEvent"@ != "WatchEvent"@,
        "PullRequestEvent"@ != "PullRequestReviewEvent"@,
        "PullRequestEvent"@ != "PushEvent"@,
        "PullRequestEvent"@ != "WatchEvent"@,
        "PullRequestReviewEvent"@ != "PushEvent"@,
        "PullRequestReviewEvent"@ != "WatchEvent"@,
        "PushEvent"@ != "WatchEvent"@,
{
    reveal_strlit("CommitCommentEvent");
    reveal_strlit("CreateEvent");
    reveal_strlit("DeleteEvent");
    reveal_strlit("DiscussionEvent");
    reveal_strlit("ForkEvent");
    reveal_strlit("IssueCommentEvent");
    reveal_strlit("IssuesEvent");
    reveal_strlit("IssueEvent");
    reveal_strlit("MemberEvent");
    reveal_strlit("PullRequestEvent");
    reveal_strlit("PullRequestReviewEvent");
    reveal_strlit("PushEvent");
    reveal_strlit("WatchEvent");
    assert("CommitCommentEvent"@ != "CreateEvent"@) by {
        assert("CommitCommentEvent"@.len() != "CreateEvent"@.len());
    }
    assert("CommitCommentEvent"@ != "DeleteEvent"@) by {
        assert("CommitCommentEvent"@.len() != "DeleteEvent"@.len());
    }
    assert("CommitCommentEvent"@ != "DiscussionEvent"@) by {
        assert("CommitCommentEvent"@.len() != "DiscussionEvent"@.len());
    }
    assert("CommitCommentEvent"@ != "ForkEvent"@) by {
        assert("CommitCommentEvent"@.len() != "ForkEvent"@.len());
    }
    assert("CommitCommentEvent"@ != "IssueCommentEvent"@) by {
        assert("CommitCommentEvent"@.len() != "IssueCommentEvent"@.len());
    }
    assert("CommitCommentEvent"@ != "IssuesEvent"@) by {
        assert("CommitCommentEvent"@.len() != "IssuesEvent"@.len());
    }
    assert("CommitCommentEvent"@ != "IssueEvent"@) by {
        assert("CommitCommentEvent"@.len() != "IssueEvent"@.len());
    }
    assert("CommitCommentEvent"@ != "MemberEvent"@) by {
        assert("CommitCommentEvent"@.len() != "MemberEvent"@.len());
    }
    assert("CommitCommentEvent"@ != "PullRequestEvent"@) by {
        assert("CommitCommentEvent"@.len() != "PullRequestEvent"@.len());
    }
    assert("CommitCommentEvent"@ != "PullRequestReviewEvent"@) by {
        assert("CommitCommentEvent"@.len() != "PullRequestReviewEvent"@.len());
    }
    assert("CommitCommentEvent"@ != "PushEvent"@) by {
        assert("CommitCommentEvent"@.len() != "PushEvent"@.len());
    }
    assert("CommitCommentEvent"@ != "WatchEvent"@) by {
        assert("CommitCommentEvent"@.len() != "WatchEvent"@.len());
    }
    assert("CreateEvent"@ != "DeleteEvent"@) by {
        assert("CreateEvent"@[0] != "DeleteEvent"@[0]);
    }
    assert("CreateEvent"@ != "DiscussionEvent"@) by {
        assert("CreateEvent"@.len() != "DiscussionEvent"@.len());
    }
    assert("CreateEvent"@ != "ForkEvent"@) by {
        assert("CreateEvent"@.len() != "ForkEvent"@.len());
    }
    assert("CreateEvent"@ != "IssueCommentEvent"@) by {
        assert("CreateEvent"@.len() != "IssueCommentEvent"@.len());
    }
    assert("CreateEvent"@ != "IssuesEvent"@) by {
        assert("CreateEvent"@[0] != "IssuesEvent"@[0]);
    }
    assert("CreateEvent"@ != "IssueEvent"@) by {
        assert("CreateEvent"@.len() != "IssueEvent"@.len());
    }
    assert("CreateEvent"@ != "MemberEvent"@) by {
        assert("CreateEvent"@[0] != "MemberEvent"@[0]);
    }
    assert("CreateEvent"@ != "PullRequestEvent"@) by {
        assert("CreateEvent"@.len() != "PullRequestEvent"@.len());
    }
    assert("CreateEvent"@ != "PullRequestReviewEvent"@) by {
        assert("CreateEvent"@.len() != "PullRequestReviewEvent"@.len());
    }
    assert("CreateEvent"@ != "PushEvent"@) by {
        assert("CreateEvent"@.len() != "PushEvent"@.len());
    }
    assert("CreateEvent"@ != "WatchEvent"@) by {
        assert("CreateEvent"@.len() != "WatchEvent"@.len());
    }
    assert("DeleteEvent"@ != "DiscussionEvent"@) by {
        assert("DeleteEvent"@.len() != "DiscussionEvent"@.len());
    }
    assert("DeleteEvent"@ != "ForkEvent"@) by {
        assert("DeleteEvent"@.len() != "ForkEvent"@.len());
    }
    assert("DeleteEvent"@ != "IssueCommentEvent"@) by {
        assert("DeleteEvent"@.len() != "IssueCommentEvent"@.len());
    }
    assert("DeleteEvent"@ != "IssuesEvent"@) by {
        assert("DeleteEvent"@[0] != "IssuesEvent"@[0]);
    }
    assert("DeleteEvent"@ != "IssueEvent"@) by {
        assert("DeleteEvent"@.len() != "IssueEvent"@.len());
    }
    assert("DeleteEvent"@ != "MemberEvent"@) by {
        assert("DeleteEvent"@[0] != "MemberEvent"@[0]);
    }
    assert("DeleteEvent"@ != "PullRequestEvent"@) by {
        assert("DeleteEvent"@.len() != "PullRequestEvent"@.len());
    }
    assert("DeleteEvent"@ != "PullRequestReviewEvent"@) by {
        assert("DeleteEvent"@.len() != "PullRequestReviewEvent"@.len());
    }
    assert("DeleteEvent"@ != "PushEvent"@) by {
        assert("DeleteEvent"@.len() != "PushEvent"@.len());
    }
    assert("DeleteEvent"@ != "WatchEvent"@) by {
        assert("DeleteEvent"@.len() != "WatchEvent"@.len());
    }
    assert("DiscussionEvent"@ != "ForkEvent"@) by {
        assert("DiscussionEvent"@.len() != "ForkEvent"@.len());
    }
    assert("DiscussionEvent"@ != "IssueCommentEvent"@) by {
        assert("DiscussionEvent"@.len() != "IssueCommentEvent"@.len());
    }
    assert("DiscussionEvent"@ != "IssuesEvent"@) by {
        assert("DiscussionEvent"@.len() != "IssuesEvent"@.len());
    }
    assert("DiscussionEvent"@ != "IssueEvent"@) by {
        assert("DiscussionEvent"@.len() != "IssueEvent"@.len());
    }
    assert("DiscussionEvent"@ != "MemberEvent"@) by {
        assert("DiscussionEvent"@.len() != "MemberEvent"@.len());
    }
    assert("DiscussionEvent"@ != "PullRequestEvent"@) by {
        assert("DiscussionEvent"@.len() != "PullRequestEvent"@.len());
    }
    assert("DiscussionEvent"@ != "PullRequestReviewEvent"@) by {
        assert("DiscussionEvent"@.len() != "PullRequestReviewEvent"@.len());
    }
    assert("DiscussionEvent"@ != "PushEvent"@) by {
        assert("DiscussionEvent"@.len() != "PushEvent"@.len());
    }
    assert("DiscussionEvent"@ != "WatchEvent"@) by {
        assert("DiscussionEvent"@.len() != "WatchEvent"@.len());
    }
    assert("ForkEvent"@ != "IssueCommentEvent"@) by {
        assert("ForkEvent"@.len() != "IssueCommentEvent"@.len());
    }
    assert("ForkEvent"@ != "IssuesEvent"@) by {
        assert("ForkEvent"@.len() != "IssuesEvent"@.len());
    }
    assert("ForkEvent"@ != "IssueEvent"@) by {
        assert("ForkEvent"@.len() != "IssueEvent"@.len());
    }
    assert("ForkEvent"@ != "MemberEvent"@) by {
        assert("ForkEvent"@.len() != "MemberEvent"@.len());
    }
    assert("ForkEvent"@ != "PullRequestEvent"@) by {
        assert("ForkEvent"@.len() != "PullRequestEvent"@.len());
    }
    assert("ForkEvent"@ != "PullRequestReviewEvent"@) by {
        assert("ForkEvent"@.len() != "PullRequestReviewEvent"@.len());
    }
    assert("ForkEvent"@ != "PushEvent"@) by {
        assert("ForkEvent"@[0] != "PushEvent"@[0]);
    }
    assert("ForkEvent"@ != "WatchEvent"@) by {
        assert("ForkEvent"@.len() != "WatchEvent"@.len());
    }
    assert("IssueCommentEvent"@ != "IssuesEvent"@) by {
        assert("IssueCommentEvent"@.len() != "IssuesEvent"@.len());
    }
    assert("IssueCommentEvent"@ != "IssueEvent"@) by {
        assert("IssueCommentEvent"@.len() != "IssueEvent"@.len());
    }
    assert("IssueCommentEvent"@ != "MemberEvent"@) by {
        assert("IssueCommentEvent"@.len() != "MemberEvent"@.len());
    }
    assert("IssueCommentEvent"@ != "PullRequestEvent"@) by {
        assert("IssueCommentEvent"@.len() != "PullRequestEvent"@.len());
    }
    assert("IssueCommentEvent"@ != "PullRequestReviewEvent"@) by {
        assert("IssueCommentEvent"@.len() != "PullRequestReviewEvent"@.len());
    }
    assert("IssueCommentEvent"@ != "PushEvent"@) by {
        assert("IssueCommentEvent"@.len() != "PushEvent"@.len());
    }
    assert("IssueCommentEvent"@ != "WatchEvent"@) by {
        assert("IssueCommentEvent"@.len() != "WatchEvent"@.len());
    }
    assert("IssuesEvent"@ != "IssueEvent"@) by {
        assert("IssuesEvent"@.len() != "IssueEvent"@.len());
    }
    assert("IssuesEvent"@ != "MemberEvent"@) by {
        assert("IssuesEvent"@[0] != "MemberEvent"@[0]);
    }
    assert("IssuesEvent"@ != "PullRequestEvent"@) by {
        assert("IssuesEvent"@.len() != "PullRequestEvent"@.len());
    }
    assert("IssuesEvent"@ != "PullRequestReviewEvent"@) by {
        assert("IssuesEvent"@.len() != "PullRequestReviewEvent"@.len());
    }
    assert("IssuesEvent"@ != "PushEvent"@) by {
        assert("IssuesEvent"@.len() != "PushEvent"@.len());
    }
    assert("IssuesEvent"@ != "WatchEvent"@) by {
        assert("IssuesEvent"@.len() != "WatchEvent"@.len());
    }
    assert("IssueEvent"@ != "MemberEvent"@) by {
        assert("IssueEvent"@.len() != "MemberEvent"@.len());
    }
    assert("IssueEvent"@ != "PullRequestEvent"@) by {
        assert("IssueEvent"@.len() != "PullRequestEvent"@.len());
    }
    assert("IssueEvent"@ != "PullRequestReviewEvent"@) by {
        assert("IssueEvent"@.len() != "PullRequestReviewEvent"@.len());
    }
    assert("IssueEvent"@ != "PushEvent"@) by {
        assert("IssueEvent"@.len() != "PushEvent"@.len());
    }
    assert("IssueEvent"@ != "WatchEvent"@) by {
        assert("IssueEvent"@[0] != "WatchEvent"@[0]);
    }
    assert("MemberEvent"@ != "PullRequestEvent"@) by {
        assert("MemberEvent"@.len() != "PullRequestEvent"@.len());
    }
    assert("MemberEvent"@ != "PullRequestReviewEvent"@) by {
        assert("MemberEvent"@.len() != "PullRequestReviewEvent"@.len());
    }
    assert("MemberEvent"@ != "PushEvent"@) by {
        assert("MemberEvent"@.len() != "PushEvent"@.len());
    }
    assert("MemberEvent"@ != "WatchEvent"@) by {
        assert("MemberEvent"@.len() != "WatchEvent"@.len());
    }
    assert("PullRequestEvent"@ != "PullRequestReviewEvent"@) by {
        assert("PullRequestEvent"@.len() != "PullRequestReviewEvent"@.len());
    }
    assert("PullRequestEvent"@ != "PushEvent"@) by {
        assert("PullRequestEvent"@.len() != "PushEvent"@.len());
    }
    assert("PullRequestEvent"@ != "WatchEvent"@) by {
        assert("PullRequestEvent"@.len() != "WatchEvent"@.len());
    }
    assert("PullRequestReviewEvent"@ != "PushEvent"@) by {
        assert("PullRequestReviewEvent"@.len() != "PushEvent"@.len());
    }
    assert("PullRequestReviewEvent"@ != "WatchEvent"@) by {
        assert("PullRequestReviewEvent"@.len() != "WatchEvent"@.len());
    }
    assert("PushEvent"@ != "WatchEvent"@) by {
        assert("PushEvent"@.len() != "WatchEvent"@.len());
    }
}

/// A pull-request event keeps the payload's action (default "opened"), is
/// filed as a `PR`, and names the pull request by its title, else by `#`
/// and its number (the pull request's own, else the payload's), else as
/// "pull request".
pub proof fn lemma_pull_request_event(e: Event, p: PullRequestPayload)
    requires
        e.event_type@ == "PullRequestEvent"@,
        e.payload == Some(Payload::PullRequest(p)),
    ensures
        parsed_event(e) is Some,
        p.action is Some ==> parsed_event(e).unwrap().ref_action == p.action->0@,
        p.action is None ==> parsed_event(e).unwrap().ref_action == "opened"@,
        parsed_event(e).unwrap().artifact == "PR"@,
        parsed_event(e).unwrap().count is None,
        p.pull_request is Some && p.pull_request->0.title is Some && p.pull_request->0.title->0@ != "pull request"@ ==> parsed_event(e).unwrap().ref_resource == p.pull_request->0.title->0@,
        p.pull_request is Some && p.pull_request->0.title is None && p.pull_request->0.number is Some ==> parsed_event(e).unwrap().ref_resource == seq!['#'] + decimal(p.pull_request->0.number->0 as nat),
        p.pull_request is None && p.number is Some ==> parsed_event(e).unwrap().ref_resource == seq!['#'] + decimal(p.number->0 as nat),
        p.pull_request is None && p.number is None ==> parsed_event(e).unwrap().ref_resource == "pull request"@,
{
    lemma_type_names_distinct();
    reveal_strlit("pull request");
    assert forall|n: u64| #![auto] seq!['#'] + decimal(n as nat) != "pull request"@ by {
        assert((seq!['#'] + decimal(n as nat))[0] != "pull request"@[0]);
    }
}

/// An issue event keeps the payload's action (default "opened"), is filed as
/// an `issue`, and names the issue by its title, else by `#` and its number,
/// else as "issue".
pub proof fn lemma_issues_event(e: Event, p: IssuePayload)
    requires
        e.event_type@ == "IssuesEvent"@ || e.event_type@ == "IssueEvent"@,
        e.payload == Some(Payload::Issue(p)),
    ensures
        parsed_event(e) is Some,
        p.action is Some ==> parsed_event(e).unwrap().ref_action == p.action->0@,
        p.action is None ==> parsed_event(e).unwrap().ref_action == "opened"@,
        parsed_event(e).unwrap().artifact == "issue"@,
        parsed_event(e).unwrap().count is None,
        p.issue is Some && p.issue->0.title is Some ==> parsed_event(e).unwrap().ref_resource == p.issue->0.title->0@,
        p.issue is Some && p.issue->0.title is None && p.issue->0.number is Some ==> parsed_event(e).unwrap().ref_resource == seq!['#'] + decimal(p.issue->0.number->0 as nat),
        p.issue is None ==> parsed_event(e).unwrap().ref_resource == "issue"@,
{
    lemma_type_names_distinct();
}

/// An issue comment keeps the payload's action (default "created"), is filed
/// as a `comment`, and names the issue as an issue event does.
pub proof fn lemma_issue_comment_event(e: Event, p: IssuePayload)
    requires
        e.event_type@ == "IssueCommentEvent"@,
        e.payload == Some(Payload::Issue(p)),
    ensures
        parsed_event(e) is Some,
        p.action is Some ==> parsed_event(e).unwrap().ref_action == p.action->0@,
        p.action is None ==> parsed_event(e).unwrap().ref_action == "created"@,
        parsed_event(e).unwrap().artifact == "comment"@,
        parsed_event(e).unwrap().count is None,
        p.issue is Some && p.issue->0.title is Some ==> parsed_event(e).unwrap().ref_resource == p.issue->0.title->0@,
        p.issue is Some && p.issue->0.title is None && p.issue->0.number is Some ==> parsed_event(e).unwrap().ref_resource == seq!['#'] + decimal(p.issue->0.number->0 as nat),
        p.issue is None ==> parsed_event(e).unwrap().ref_resource == "issue"@,
{
    lemma_type_names_distinct();
}

/// A review keeps the payload's action (default "created"), is filed as a
/// `review`, and names the pull request by its title, else by `#` and its
/// number, else as "pull request".
pub proof fn lemma_pull_request_review_event(e: Event, p: PullRequestReviewPayload)
    requires
        e.event_type@ == "PullRequestReviewEvent"@,
        e.payload == Some(Payload::PullRequestReview(p)),
    ensures
        parsed_event(e) is Some,
        p.action is Some ==> parsed_event(e).unwrap().ref_action == p.action->0@,
        p.action is None ==> parsed_event(e).unwrap().ref_action == "created"@,
        parsed_event(e).unwrap().artifact == "review"@,
        parsed_event(e).unwrap().count is None,
        p.pull_request is Some && p.pull_request->0.title is Some ==> parsed_event(e).unwrap().ref_resource == p.pull_request->0.title->0@,
        p.pull_request is Some && p.pull_request->0.title is None && p.pull_request->0.number is Some ==> parsed_event(e).unwrap().ref_resource == seq!['#'] + decimal(p.pull_request->0.number->0 as nat),
        p.pull_request is None ==> parsed_event(e).unwrap().ref_resource == "pull request"@,
{
    lemma_type_names_distinct();
}

/// A commit comment keeps the payload's action (default "created"), is filed
/// as a `comment`, and names the comment by its address, else its path,
/// else its commit, else as "commit comment".
pub proof fn lemma_commit_comment_event(e: Event, p: CommitCommentPayload)
    requires
        e.event_type@ == "CommitCommentEvent"@,
        e.payload == Some(Payload::CommitComment(p)),
    ensures
        parsed_event(e) is Some,
        p.action is Some ==> parsed_event(e).unwrap().ref_action == p.action->0@,
        p.action is None ==> parsed_event(e).unwrap().ref_action == "created"@,
        parsed_event(e).unwrap().artifact == "comment"@,
        parsed_event(e).unwrap().count is None,
        p.comment is Some && p.comment->0.html_url is Some ==> parsed_event(e).unwrap().ref_resource == p.comment->0.html_url->0@,
        p.comment is Some && p.comment->0.html_url is None && p.comment->0.path is Some ==> parsed_event(e).unwrap().ref_resource == p.comment->0.path->0@,
        p.comment is Some && p.comment->0.html_url is None && p.comment->0.path is None && p.comment->0.commit_id is Some ==> parsed_event(e).unwrap().ref_resource == p.comment->0.commit_id->0@,
        p.comment is None ==> parsed_event(e).unwrap().ref_resource == "commit comment"@,
{
    lemma_type_names_distinct();
}

/// A create event is always "created"; it is filed under the kind of ref
/// (default "repository") and names the ref, else its kind, else
/// "repository".
pub proof fn lemma_create_event(e: Event, p: CreatePayload)
    requires
        e.event_type@ == "CreateEvent"@,
        e.payload == Some(Payload::Create(p)),
    ensures
        parsed_event(e) is Some,
        parsed_event(e).unwrap().ref_action == "created"@,
        parsed_event(e).unwrap().count is None,
        p.ref_type is Some ==> parsed_event(e).unwrap().artifact == p.ref_type->0@,
        p.ref_type is None ==> parsed_event(e).unwrap().artifact == "repository"@,
        p.ref_field is Some ==> parsed_event(e).unwrap().ref_resource == p.ref_field->0@,
        p.ref_field is None && p.ref_type is Some ==> parsed_event(e).unwrap().ref_resource == p.ref_type->0@,
        p.ref_field is None && p.ref_type is None ==> parsed_event(e).unwrap().ref_resource == "repository"@,
{
    lemma_type_names_distinct();
}

/// A delete event is always "deleted"; it is filed under the kind of ref
/// (default "ref") and names the ref, else its kind, else "ref".
pub proof fn lemma_delete_event(e: Event, p: DeletePayload)
    requires
        e.event_type@ == "DeleteEvent"@,
        e.payload == Some(Payload::Delete(p)),
    ensures
        parsed_event(e) is Some,
        parsed_event(e).unwrap().ref_action == "deleted"@,
        parsed_event(e).unwrap().count is None,
        p.ref_type is Some ==> parsed_event(e).unwrap().artifact == p.ref_type->0@,
        p.ref_type is None ==> parsed_event(e).unwrap().artifact == "ref"@,
        p.ref_field is Some ==> parsed_event(e).unwrap().ref_resource == p.ref_field->0@,
        p.ref_field is None && p.ref_type is Some ==> parsed_event(e).unwrap().ref_resource == p.ref_type->0@,
        p.ref_field is None && p.ref_type is None ==> parsed_event(e).unwrap().ref_resource == "ref"@,
{
    lemma_type_names_distinct();
}

/// A discussion event keeps the payload's action (default "created") and
/// names the discussion by its title, else as "discussion".
pub proof fn lemma_discussion_event(e: Event, p: DiscussionPayload)
    requires
        e.event_type@ == "DiscussionEvent"@,
        e.payload == Some(Payload::Discussion(p)),
    ensures
        parsed_event(e) is Some,
        p.action is Some ==> parsed_event(e).unwrap().ref_action == p.action->0@,
        p.action is None ==> parsed_event(e).unwrap().ref_action == "created"@,
        parsed_event(e).unwrap().artifact == "discussion"@,
        parsed_event(e).unwrap().count is None,
        p.discussion is Some && p.discussion->0.title is Some ==> parsed_event(e).unwrap().ref_resource == p.discussion->0.title->0@,
        p.discussion is None ==> parsed_event(e).unwrap().ref_resource == "discussion"@,
{
    lemma_type_names_distinct();
}

/// A fork event keeps the payload's action (default "forked") and names the
/// new repository by its full name, else its name, else as "fork".
pub proof fn lemma_fork_event(e: Event, p: ForkPayload)
    requires
        e.event_type@ == "ForkEvent"@,
        e.payload == Some(Payload::Fork(p)),
    ensures
        parsed_event(e) is Some,
        p.action is Some ==> parsed_event(e).unwrap().ref_action == p.action->0@,
        p.action is None ==> parsed_event(e).unwrap().ref_action == "forked"@,
        parsed_event(e).unwrap().artifact == "fork"@,
        parsed_event(e).unwrap().count is None,
        p.forkee is Some && p.forkee->0.full_name is Some ==> parsed_event(e).unwrap().ref_resource == p.forkee->0.full_name->0@,
        p.forkee is Some && p.forkee->0.full_name is None && p.forkee->0.name is Some ==> parsed_event(e).unwrap().ref_resource == p.forkee->0.name->0@,
        p.forkee is None ==> parsed_event(e).unwrap().ref_resource == "fork"@,
{
    lemma_type_names_distinct();
}

/// A member event keeps the payload's action (default "added") and names
/// the collaborator by login, else as "member".
pub proof fn lemma_member_event(e: Event, p: MemberPayload)
    requires
        e.event_type@ == "MemberEvent"@,
        e.payload == Some(Payload::Member(p)),
    ensures
        parsed_event(e) is Some,
        p.action is Some ==> parsed_event(e).unwrap().ref_action == p.action->0@,
        p.action is None ==> parsed_event(e).unwrap().ref_action == "added"@,
        parsed_event(e).unwrap().artifact == "member"@,
        parsed_event(e).unwrap().count is None,
        p.member is Some && p.member->0.login is Some ==> parsed_event(e).unwrap().ref_resource == p.member->0.login->0@,
        p.member is None ==> parsed_event(e).unwrap().ref_resource == "member"@,
{
    lemma_type_names_distinct();
}

/// A push is always "pushed", filed as `commit`, carries the payload's size
/// as its count, and names the branch or tag without its `refs/heads/` or
/// `refs/tags/` prefix, else the head commit, else "ref".
pub proof fn lemma_push_event(e: Event, p: PushPayload)
    requires
        e.event_type@ == "PushEvent"@,
        e.payload == Some(Payload::Push(p)),
    ensures
        parsed_event(e) is Some,
        parsed_event(e).unwrap().ref_action == "pushed"@,
        parsed_event(e).unwrap().artifact == "commit"@,
        parsed_event(e).unwrap().count == p.size,
        p.ref_field is Some && "refs/heads/"@.is_prefix_of(p.ref_field->0@) ==> parsed_event(e).unwrap().ref_resource == p.ref_field->0@.skip(11),
        p.ref_field is Some && !"refs/heads/"@.is_prefix_of(p.ref_field->0@) && "refs/tags/"@.is_prefix_of(p.ref_field->0@) ==> parsed_event(e).unwrap().ref_resource == p.ref_field->0@.skip(10),
        p.ref_field is Some && !"refs/heads/"@.is_prefix_of(p.ref_field->0@) && !"refs/tags/"@.is_prefix_of(p.ref_field->0@) ==> parsed_event(e).unwrap().ref_resource == p.ref_field->0@,
        p.ref_field is None && p.head is Some ==> parsed_event(e).unwrap().ref_resource == p.head->0@,
        p.ref_field is None && p.head is None ==> parsed_event(e).unwrap().ref_resource == "ref"@,
{
    lemma_type_names_distinct();
    reveal_strlit("refs/heads/");
    reveal_strlit("refs/tags/");
}

/// A watch event keeps the payload's action (default "started") and is a
/// `star` on the "repository".
pub proof fn lemma_watch_event(e: Event, p: WatchPayload)
    requires
        e.event_type@ == "WatchEvent"@,
        e.payload == Some(Payload::Watch(p)),
    ensures
        parsed_event(e) is Some,
        p.action is Some ==> parsed_event(e).unwrap().ref_action == p.action->0@,
        p.action is None ==> parsed_event(e).unwrap().ref_action == "started"@,
        parsed_event(e).unwrap().artifact == "star"@,
        parsed_event(e).unwrap().ref_resource == "repository"@,
        parsed_event(e).unwrap().count is None,
{
    lemma_type_names_distinct();
}

/// Decoding a single event gives that event's uniform shape, or nothing where
/// it is skipped; with `lemma_parsed_events_append`, every described event of
/// a list is kept, in order, and only skipped ones are dropped.
pub proof fn lemma_parsed_events_single(e: Event)
    ensures
        parsed_event(e) matches Some(v) ==> parsed_events(seq![e]) == seq![v],
        parsed_event(e) is None ==> parsed_events(seq![e]) == Seq::<ParsedEventView>::empty(),
{
    assert(seq![e].drop_last() =~= Seq::<Event>::empty());
    assert(seq![e].last() == e);
    assert(parsed_events(Seq::<Event>::empty()) =~= Seq::<ParsedEventView>::empty());
    if let Some(v) = parsed_event(e) {
        assert(Seq::<ParsedEventView>::empty().push(v) =~= seq![v]);
    }
}

/// The number of events a list decodes to is the number of its events that
/// are described.
pub proof fn lemma_parsed_events_len(events: Seq<Event>)
    ensures
        parsed_events(events).len() == events.filter(|e: Event| parsed_event(e) is Some).len(),
    decreases events.len(),
{
    reveal_with_fuel(Seq::filter, 1);
    if events.len() > 0 {
        lemma_parsed_events_len(events.drop_last());
    }
}

} // verus!
