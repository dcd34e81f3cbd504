use gh_activity::event::ParsedEvent;
use gh_activity::render::{
    format_event, line_pieces, paint, palette_color, random_color, Color, Piece, PALETTE_SIZE,
};
use gh_activity::text::capitalize_first;

const PALETTE_CODES: [&str; 12] = ["31", "32", "33", "34", "35", "36", "91", "92", "93", "94", "95", "96"];

/// What a terminal shows: drops each escape sequence up to its closing `m`.
fn shown(s: &str) -> String {
    let mut out = String::new();
    let mut inside = false;
    for c in s.chars() {
        if inside {
            inside = c != 'm';
        } else if c == '\x1b' {
            inside = true;
        } else {
            out.push(c);
        }
    }
    out
}

/// Whether `out` is `value` itself or `value` painted in a palette colour.
fn is_painting_of(value: &str, out: &str) -> bool {
    out == value
        || PALETTE_CODES
            .iter()
            .any(|code| out == format!("\x1b[{}m{}\x1b[0m", code, value))
}

fn event(event_type: &str, action: &str, resource: &str, artifact: &str, count: Option<u64>) -> ParsedEvent {
    ParsedEvent {
        repo: "octo/repo".to_string(),
        event_type: event_type.to_string(),
        artifact: artifact.to_string(),
        ref_action: action.to_string(),
        ref_resource: resource.to_string(),
        count,
        public: true,
        created_at: "2024-01-02T03:04:05Z".to_string(),
    }
}

fn line(event_type: &str, action: &str, resource: &str, artifact: &str, count: Option<u64>) -> String {
    shown(&format_event(&event(event_type, action, resource, artifact, count)))
}

#[test]
fn capitalize_ascii_word() {
    assert_eq!(capitalize_first("opened"), "Opened");
    assert_eq!(capitalize_first("Closed"), "Closed");
    assert_eq!(capitalize_first("1st"), "1st");
}

#[test]
fn capitalize_empty() {
    assert_eq!(capitalize_first(""), "");
}

#[test]
fn capitalize_uses_full_unicode_mapping() {
    assert_eq!(capitalize_first("\u{e9}lan"), "\u{c9}lan");
    assert_eq!(capitalize_first("\u{df}a"), "SSa");
}

#[test]
fn paint_keeps_the_words() {
    for _ in 0..50 {
        let out = paint("hello world");
        assert!(is_painting_of("hello world", &out), "unexpected painting {:?}", out);
        assert_eq!(shown(&out), "hello world");
    }
}

#[test]
fn paint_follows_the_colour_switch() {
    colored::control::set_override(true);
    let on = paint("hi");
    let line_on = format_event(&event("ForkEvent", "forked", "me/repo", "fork", None));
    colored::control::set_override(false);
    let off = paint("hi");
    let line_off = format_event(&event("ForkEvent", "forked", "me/repo", "fork", None));
    colored::control::unset_override();
    assert!(on != "hi");
    assert!(is_painting_of("hi", &on), "unexpected painting {:?}", on);
    assert_eq!(off, "hi");
    assert!(line_on.contains('\x1b'));
    assert_eq!(shown(&line_on), "Forked octo/repo to me/repo");
    assert_eq!(line_off, "Forked octo/repo to me/repo");
}

#[test]
fn random_colours_come_from_the_palette() {
    let palette = [
        Color::Red, Color::Green, Color::Yellow, Color::Blue, Color::Magenta, Color::Cyan,
        Color::BrightRed, Color::BrightGreen, Color::BrightYellow, Color::BrightBlue,
        Color::BrightMagenta, Color::BrightCyan,
    ];
    for _ in 0..100 {
        assert!(palette.contains(&random_color()));
    }
}

#[test]
fn push_lines() {
    assert_eq!(line("PushEvent", "pushed", "main", "commit", Some(1)), "Pushed 1 commit to octo/repo");
    assert_eq!(line("PushEvent", "pushed", "main", "commit", Some(5)), "Pushed 5 commits to octo/repo");
    assert_eq!(line("PushEvent", "pushed", "main", "commit", Some(0)), "Pushed commits to octo/repo");
    assert_eq!(line("PushEvent", "pushed", "main", "commit", None), "Pushed commits to octo/repo");
}

#[test]
fn watch_line() {
    assert_eq!(line("WatchEvent", "started", "repository", "star", None), "Starred octo/repo");
}

#[test]
fn issue_lines() {
    assert_eq!(line("IssuesEvent", "opened", "Crash", "issue", None), "Opened a new issue in octo/repo");
    assert_eq!(line("IssueEvent", "closed", "Crash", "issue", None), "Closed an issue in octo/repo");
}

#[test]
fn issue_comment_lines() {
    assert_eq!(line("IssueCommentEvent", "created", "issue", "comment", None), "Commented on issue in octo/repo");
    assert_eq!(line("IssueCommentEvent", "created", "#42", "comment", None), "Commented on issue #42 in octo/repo");
}

#[test]
fn pull_request_lines() {
    assert_eq!(line("PullRequestEvent", "opened", "#3", "PR", None), "Opened a pull request in octo/repo");
    assert_eq!(line("PullRequestEvent", "closed", "#3", "PR", None), "Closed a pull request in octo/repo");
}

#[test]
fn review_lines() {
    assert_eq!(line("PullRequestReviewEvent", "created", "#3", "review", None), "Reviewed a pull request review in octo/repo");
    assert_eq!(line("PullRequestReviewEvent", "dismissed", "#3", "review", None), "Dismissed a pull request review in octo/repo");
}

#[test]
fn commit_comment_lines() {
    assert_eq!(line("CommitCommentEvent", "created", "commit comment", "comment", None), "Commented on commit in octo/repo");
    assert_eq!(line("CommitCommentEvent", "created", "f00", "comment", None), "Commented on commit f00 in octo/repo");
}

#[test]
fn discussion_line() {
    assert_eq!(line("DiscussionEvent", "created", "Ideas", "discussion", None), "Created a discussion in octo/repo");
}

#[test]
fn fork_lines() {
    assert_eq!(line("ForkEvent", "forked", "me/repo", "fork", None), "Forked octo/repo to me/repo");
    assert_eq!(line("ForkEvent", "forked", "fork", "fork", None), "Forked octo/repo");
}

#[test]
fn create_lines() {
    assert_eq!(line("CreateEvent", "created", "repository", "repository", None), "Created repository octo/repo");
    assert_eq!(line("CreateEvent", "created", "feature", "branch", None), "Created branch feature in octo/repo");
}

#[test]
fn delete_line() {
    assert_eq!(line("DeleteEvent", "deleted", "feature", "branch", None), "Deleted branch feature in octo/repo");
}

#[test]
fn member_line() {
    assert_eq!(line("MemberEvent", "added", "alice", "member", None), "Added alice to octo/repo");
}

#[test]
fn other_type_line() {
    assert_eq!(line("GollumEvent", "edited", "wiki", "page", None), "Edited wiki in octo/repo");
}

#[test]
fn pieces_of_a_push() {
    let pieces = line_pieces(&event("PushEvent", "pushed", "main", "commit", Some(2)));
    let texts: Vec<(bool, &str)> = pieces
        .iter()
        .map(|p| match p {
            Piece::Plain(s) => (false, s.as_str()),
            Piece::Painted(s) => (true, s.as_str()),
        })
        .collect();
    assert_eq!(
        texts,
        vec![(true, "Pushed"), (false, " "), (true, "2 commits"), (false, " to "), (true, "octo/repo")]
    );
}

#[test]
fn palette_positions() {
    assert_eq!(PALETTE_SIZE, 12);
    assert_eq!(palette_color(0), Color::Red);
    assert_eq!(palette_color(5), Color::Cyan);
    assert_eq!(palette_color(6), Color::BrightRed);
    assert_eq!(palette_color(11), Color::BrightCyan);
}

#[test]
fn same_text_fields_show_the_same_line() {
    let mut a = event("IssuesEvent", "opened", "Crash", "issue", None);
    let mut b = event("IssuesEvent", "opened", "Crash", "issue", None);
    a.public = true;
    b.public = false;
    b.created_at = "1999-12-31T23:59:59Z".to_string();
    assert_eq!(shown(&format_event(&a)), shown(&format_event(&b)));
    assert_eq!(shown(&format_event(&a)), "Opened a new issue in octo/repo");
}
