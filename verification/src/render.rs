//! One-line descriptions of events, each word group painted in a colour
//! picked at random from a fixed palette.

use colored::Colorize;
use rand::Rng;
use vstd::prelude::*;
use crate::event::{lemma_type_names_distinct, ParsedEvent, ParsedEventView};
use crate::text::{capitalize_first, capitalized, decimal, decimal_string, no_escape, str_eq};

verus! {

/// The foreground colours a description is painted in.
#[derive(Clone, Copy, Debug, PartialEq, Eq, Structural)]
pub enum Color {
    Red,
    Green,
    Yellow,
    Blue,
    Magenta,
    Cyan,
    BrightRed,
    BrightGreen,
    BrightYellow,
    BrightBlue,
    BrightMagenta,
    BrightCyan,
}

/// The palette, in the order the random pick indexes it.
pub open spec fn palette() -> Seq<Color> {
    seq![
        Color::Red,
        Color::Green,
        Color::Yellow,
        Color::Blue,
        Color::Magenta,
        Color::Cyan,
        Color::BrightRed,
        Color::BrightGreen,
        Color::BrightYellow,
        Color::BrightBlue,
        Color::BrightMagenta,
        Color::BrightCyan,
    ]
}

/// The ANSI foreground code of a colour.
pub open spec fn ansi_code(c: Color) -> Seq<char> {
    match c {
        Color::Red => "31"@,
        Color::Green => "32"@,
        Color::Yellow => "33"@,
        Color::Blue => "34"@,
        Color::Magenta => "35"@,
        Color::Cyan => "36"@,
        Color::BrightRed => "91"@,
        Color::BrightGreen => "92"@,
        Color::BrightYellow => "93"@,
        Color::BrightBlue => "94"@,
        Color::BrightMagenta => "95"@,
        Color::BrightCyan => "96"@,
    }
}

/// The escape sequence that resets all styling.
pub open spec fn reset_code() -> Seq<char> {
    seq!['\x1b', '[', '0', 'm']
}

/// The escape sequence that switches to colour `c`.
pub open spec fn style_of(c: Color) -> Seq<char> {
    seq!['\x1b', '['] + ansi_code(c) + seq!['m']
}

/// `s` with `style` inserted after every reset sequence in it, so that a
/// reset inside the text does not end the colour early.
pub open spec fn escape_resets(s: Seq<char>, style: Seq<char>) -> Seq<char>
    decreases s.len(),
{
    if s.len() == 0 {
        s
    } else if reset_code().is_prefix_of(s) {
        reset_code() + style + escape_resets(s.skip(reset_code().len() as int), style)
    } else {
        seq![s[0]] + escape_resets(s.drop_first(), style)
    }
}

/// `s` painted in colour `c` on a terminal.
pub open spec fn styled(s: Seq<char>, c: Color) -> Seq<char> {
    style_of(c) + escape_resets(s, style_of(c)) + reset_code()
}

/// `out` is what painting `s` may give: `s` itself where colouring is off,
/// or `s` styled in a colour of the palette.
pub open spec fn painted_as(s: Seq<char>, out: Seq<char>) -> bool {
    ||| out == s
    ||| exists|c: Color| palette().contains(c) && out == #[trigger] styled(s, c)
}

/// Calls `Rng::gen_range(0..len)` on `rand::thread_rng()`. The contract
/// states only the range: the value is random.
#[verifier::external_body]
fn random_index(len: usize) -> (res: usize)
    requires
        len > 0,
    ensures
        res < len,
{
    rand::thread_rng().gen_range(0..len)
}

/// Calls `Colorize::color` of the `colored` crate on `value` and turns the
/// result into a `String` through its `Display`. Whether escape sequences
/// are written depends on the environment (`CLICOLOR`, `NO_COLOR`,
/// `CLICOLOR_FORCE`, whether standard output is a terminal, and the crate's
/// override switch), so the contract states both outcomes. It holds only
/// while no other thread flips that switch during the call; nothing in this
/// library flips it.
#[verifier::external_body]
fn colorize(value: &str, color: Color) -> (res: String)
    ensures
        res@ == value@ || res@ == styled(value@, color),
{
    let target = match color {
        Color::Red => colored::Color::Red, Color::Green => colored::Color::Green,
        Color::Yellow => colored::Color::Yellow, Color::Blue => colored::Color::Blue,
        Color::Magenta => colored::Color::Magenta, Color::Cyan => colored::Color::Cyan,
        Color::BrightRed => colored::Color::BrightRed, Color::BrightGreen => colored::Color::BrightGreen,
        Color::BrightYellow => colored::Color::BrightYellow, Color::BrightBlue => colored::Color::BrightBlue,
        Color::BrightMagenta => colored::Color::BrightMagenta, Color::BrightCyan => colored::Color::BrightCyan,
    };
    value.color(target).to_string()
}

/// The number of colours in the palette.
pub const PALETTE_SIZE: usize = 12;

/// The colour at position `index` of the palette.
pub fn palette_color(index: usize) -> (res: Color)
    requires
        index < PALETTE_SIZE,
    ensures
        res == palette()[index as int],
{
    let colors = vec![
        Color::Red,
        Color::Green,
        Color::Yellow,
        Color::Blue,
        Color::Magenta,
        Color::Cyan,
        Color::BrightRed,
        Color::BrightGreen,
        Color::BrightYellow,
        Color::BrightBlue,
        Color::BrightMagenta,
        Color::BrightCyan,
    ];
    assert(colors@ =~= palette());
    colors[index]
}

/// Picks a colour of the palette at random: the colour at a random position
/// of the palette.
pub fn random_color() -> (res: Color)
    ensures
        palette().contains(res),
{
    let i = random_index(PALETTE_SIZE);
    let c = palette_color(i);
    assert(palette()[i as int] == c);
    c
}

/// Paints `value` in a random colour of the palette.
pub fn paint(value: &str) -> (res: String)
    ensures
        painted_as(value@, res@),
{
    let c = random_color();
    let res = colorize(value, c);
    proof {
        if res@ != value@ {
            assert(res@ == styled(value@, c));
        }
    }
    res
}


/// A part of a description: text written as it is, or text that is painted.
#[derive(Debug)]
pub enum Piece {
    Plain(String),
    Painted(String),
}

/// The model of a [`Piece`].
pub enum PieceView {
    Plain(Seq<char>),
    Painted(Seq<char>),
}

impl View for Piece {
    type V = PieceView;

    open spec fn view(&self) -> PieceView {
        match self {
            Piece::Plain(s) => PieceView::Plain(s@),
            Piece::Painted(s) => PieceView::Painted(s@),
        }
    }
}

/// The text of a piece, unpainted.
pub open spec fn piece_text(p: PieceView) -> Seq<char> {
    match p {
        PieceView::Plain(s) => s,
        PieceView::Painted(s) => s,
    }
}

/// `out` is what writing piece `p` may give.
pub open spec fn piece_rendered(p: PieceView, out: Seq<char>) -> bool {
    match p {
        PieceView::Plain(s) => out == s,
        PieceView::Painted(s) => painted_as(s, out),
    }
}

/// `outs` are what writing the pieces of `t` one by one may give.
pub open spec fn renders(t: Seq<PieceView>, outs: Seq<Seq<char>>) -> bool {
    &&& outs.len() == t.len()
    &&& forall|i: int| 0 <= i < t.len() ==> #[trigger] piece_rendered(t[i], outs[i])
}

/// The description of `e` with no colour: the texts of its pieces in a row.
pub open spec fn plain_line(e: ParsedEventView) -> Seq<char> {
    line_template(e).map_values(|p: PieceView| piece_text(p)).flatten()
}

/// The words of the count of a push: "N commit" or "N commits", or just
/// "commits" where the count is absent or zero.
pub open spec fn commit_count_text(count: Option<u64>) -> Seq<char> {
    let n: u64 = match count {
        Some(c) => c,
        None => 0,
    };
    if n > 0 {
        decimal(n as nat) + " "@ + (if n == 1 {
            "commit"@
        } else {
            "commits"@
        })
    } else {
        "commits"@
    }
}

/// The pieces of the description of `e`, chosen by its event type.
pub open spec fn line_template(e: ParsedEventView) -> Seq<PieceView> {
    let t = e.event_type;
    let repo = PieceView::Painted(e.repo);
    let action = e.ref_action;
    let resource = e.ref_resource;
    if t == "PushEvent"@ {
        seq![
            PieceView::Painted("Pushed"@),
            PieceView::Plain(" "@),
            PieceView::Painted(commit_count_text(e.count)),
            PieceView::Plain(" to "@),
            repo,
        ]
    } else if t == "WatchEvent"@ {
        seq![PieceView::Painted("Starred"@), PieceView::Plain(" "@), repo]
    } else if t == "IssuesEvent"@ || t == "IssueEvent"@ {
        if action == "opened"@ {
            seq![
                PieceView::Painted(capitalized(action)),
                PieceView::Plain(" a "@),
                PieceView::Painted("new issue"@),
                PieceView::Plain(" in "@),
                repo,
            ]
        } else {
            seq![
                PieceView::Painted(capitalized(action)),
                PieceView::Plain(" an "@),
                PieceView::Painted("issue"@),
                PieceView::Plain(" in "@),
                repo,
            ]
        }
    } else if t == "IssueCommentEvent"@ {
        seq![
            PieceView::Painted("Commented"@),
            PieceView::Plain(" on "@),
            PieceView::Painted(
                if resource == "issue"@ {
                    "issue"@
                } else {
                    "issue "@ + resource
                },
            ),
            PieceView::Plain(" in "@),
            repo,
        ]
    } else if t == "PullRequestEvent"@ {
        seq![
            PieceView::Painted(capitalized(action)),
            PieceView::Plain(" a "@),
            PieceView::Painted("pull request"@),
            PieceView::Plain(" in "@),
            repo,
        ]
    } else if t == "PullRequestReviewEvent"@ {
        seq![
            PieceView::Painted(
                if action == "created"@ {
                    "Reviewed"@
                } else {
                    capitalized(action)
                },
            ),
            PieceView::Plain(" a "@),
            PieceView::Painted("pull request review"@),
            PieceView::Plain(" in "@),
            repo,
        ]
    } else if t == "CommitCommentEvent"@ {
        seq![
            PieceView::Painted("Commented"@),
            PieceView::Plain(" on "@),
            PieceView::Painted(
                if resource == "commit comment"@ {
                    "commit"@
                } else {
                    "commit "@ + resource
                },
            ),
            PieceView::Plain(" in "@),
            repo,
        ]
    } else if t == "DiscussionEvent"@ {
        seq![
            PieceView::Painted(capitalized(action)),
            PieceView::Plain(" a "@),
            PieceView::Painted("discussion"@),
            PieceView::Plain(" in "@),
            repo,
        ]
    } else if t == "ForkEvent"@ {
        if resource != "fork"@ {
            seq![
                PieceView::Painted("Forked"@),
                PieceView::Plain(" "@),
                repo,
                PieceView::Plain(" to "@),
                PieceView::Painted(resource),
            ]
        } else {
            seq![PieceView::Painted("Forked"@), PieceView::Plain(" "@), repo]
        }
    } else if t == "CreateEvent"@ {
        if e.artifact == "repository"@ {
            seq![
                PieceView::Painted("Created"@),
                PieceView::Plain(" "@),
                PieceView::Painted("repository"@),
                PieceView::Plain(" "@),
                repo,
            ]
        } else {
            seq![
                PieceView::Painted("Created"@),
                PieceView::Plain(" "@),
                PieceView::Painted(e.artifact),
                PieceView::Plain(" "@),
                PieceView::Painted(resource),
                PieceView::Plain(" in "@),
                repo,
            ]
        }
    } else if t == "DeleteEvent"@ {
        seq![
            PieceView::Painted("Deleted"@),
            PieceView::Plain(" "@),
            PieceView::Painted(e.artifact),
            PieceView::Plain(" "@),
            PieceView::Painted(resource),
            PieceView::Plain(" in "@),
            repo,
        ]
    } else if t == "MemberEvent"@ {
        seq![
            PieceView::Painted(capitalized(action)),
            PieceView::Plain(" "@),
            PieceView::Painted(resource),
            PieceView::Plain(" to "@),
            repo,
        ]
    } else {
        seq![
            PieceView::Painted(capitalized(action)),
            PieceView::Plain(" "@),
            PieceView::Painted(resource),
            PieceView::Plain(" in "@),
            repo,
        ]
    }
}


/// The words of the descriptions hold no escape character.
proof fn lemma_template_words_plain()
    ensures
        no_escape("Pushed"@),
        no_escape(" "@),
        no_escape(" to "@),
        no_escape("commit"@),
        no_escape("commits"@),
        no_escape("Starred"@),
        no_escape(" a "@),
        no_escape("new issue"@),
        no_escape(" in "@),
        no_escape(" an "@),
        no_escape("issue"@),
        no_escape("Commented"@),
        no_escape(" on "@),
        no_escape("issue "@),
        no_escape("pull request"@),
        no_escape("Reviewed"@),
        no_escape("pull request review"@),
        no_escape("commit "@),
        no_escape("discussion"@),
        no_escape("Forked"@),
        no_escape("Created"@),
        no_escape("repository"@),
        no_escape("Deleted"@),
{
    reveal_strlit("Pushed");
    reveal_strlit(" ");
    reveal_strlit(" to ");
    reveal_strlit("commit");
    reveal_strlit("commits");
    reveal_strlit("Starred");
    reveal_strlit(" a ");
    reveal_strlit("new issue");
    reveal_strlit(" in ");
    reveal_strlit(" an ");
    reveal_strlit("issue");
    reveal_strlit("Commented");
    reveal_strlit(" on ");
    reveal_strlit("issue ");
    reveal_strlit("pull request");
    reveal_strlit("Reviewed");
    reveal_strlit("pull request review");
    reveal_strlit("commit ");
    reveal_strlit("discussion");
    reveal_strlit("Forked");
    reveal_strlit("Created");
    reveal_strlit("repository");
    reveal_strlit("Deleted");
}

proof fn lemma_decimal_plain(n: nat)
    ensures
        no_escape(decimal(n)),
    decreases n,
{
    if n >= 10 {
        lemma_decimal_plain(n / 10);
    }
}

/// The text fields of `e` that its description shows hold no escape
/// character.
pub open spec fn text_fields_plain(e: ParsedEventView) -> bool {
    &&& no_escape(e.repo)
    &&& no_escape(e.artifact)
    &&& no_escape(e.ref_action)
    &&& no_escape(e.ref_resource)
}

fn plain(s: &str) -> (res: Piece)
    ensures
        res@ == PieceView::Plain(s@),
{
    Piece::Plain(String::from_str(s))
}

fn painted(s: &str) -> (res: Piece)
    ensures
        res@ == PieceView::Painted(s@),
{
    Piece::Painted(String::from_str(s))
}

fn commit_count_string(count: Option<u64>) -> (res: String)
    ensures
        res@ == commit_count_text(count),
{
    let n = match count {
        Some(c) => c,
        None => 0,
    };
    if n > 0 {
        let word = if n == 1 {
            "commit"
        } else {
            "commits"
        };
        decimal_string(n).concat(" ").concat(word)
    } else {
        String::from_str("commits")
    }
}

/// The pieces of the description of `event`.
pub fn line_pieces(event: &ParsedEvent) -> (res: Vec<Piece>)
    ensures
        res@.map_values(|p: Piece| p@) == line_template(event@),
        text_fields_plain(event@) ==> forall|i: int|
            0 <= i < line_template(event@).len() ==> no_escape(
                #[trigger] piece_text(line_template(event@)[i]),
            ),
{
    let t = event.event_type.as_str();
    let action = event.ref_action.as_str();
    let resource = event.ref_resource.as_str();
    let repo = event.repo.as_str();
    let pieces = if str_eq(t, "PushEvent") {
        vec![
            painted("Pushed"),
            plain(" "),
            Piece::Painted(commit_count_string(event.count)),
            plain(" to "),
            painted(repo),
        ]
    } else if str_eq(t, "WatchEvent") {
        vec![painted("Starred"), plain(" "), painted(repo)]
    } else if str_eq(t, "IssuesEvent") || str_eq(t, "IssueEvent") {
        if str_eq(action, "opened") {
            vec![
                Piece::Painted(capitalize_first(action)),
                plain(" a "),
                painted("new issue"),
                plain(" in "),
                painted(repo),
            ]
        } else {
            vec![
                Piece::Painted(capitalize_first(action)),
                plain(" an "),
                painted("issue"),
                plain(" in "),
                painted(repo),
            ]
        }
    } else if str_eq(t, "IssueCommentEvent") {
        let label = if str_eq(resource, "issue") {
            String::from_str("issue")
        } else {
            String::from_str("issue ").concat(resource)
        };
        vec![painted("Commented"), plain(" on "), Piece::Painted(label), plain(" in "), painted(repo)]
    } else if str_eq(t, "PullRequestEvent") {
        vec![
            Piece::Painted(capitalize_first(action)),
            plain(" a "),
            painted("pull request"),
            plain(" in "),
            painted(repo),
        ]
    } else if str_eq(t, "PullRequestReviewEvent") {
        let verb = if str_eq(action, "created") {
            String::from_str("Reviewed")
        } else {
            capitalize_first(action)
        };
        vec![
            Piece::Painted(verb),
            plain(" a "),
            painted("pull request review"),
            plain(" in "),
            painted(repo),
        ]
    } else if str_eq(t, "CommitCommentEvent") {
        let label = if str_eq(resource, "commit comment") {
            String::from_str("commit")
        } else {
            String::from_str("commit ").concat(resource)
        };
        vec![painted("Commented"), plain(" on "), Piece::Painted(label), plain(" in "), painted(repo)]
    } else if str_eq(t, "DiscussionEvent") {
        vec![
            Piece::Painted(capitalize_first(action)),
            plain(" a "),
            painted("discussion"),
            plain(" in "),
            painted(repo),
        ]
    } else if str_eq(t, "ForkEvent") {
        if !str_eq(resource, "fork") {
            vec![painted("Forked"), plain(" "), painted(repo), plain(" to "), painted(resource)]
        } else {
            vec![painted("Forked"), plain(" "), painted(repo)]
        }
    } else if str_eq(t, "CreateEvent") {
        if str_eq(event.artifact.as_str(), "repository") {
            vec![painted("Created"), plain(" "), painted("repository"), plain(" "), painted(repo)]
        } else {
            vec![
                painted("Created"),
                plain(" "),
                painted(event.artifact.as_str()),
                plain(" "),
                painted(resource),
                plain(" in "),
                painted(repo),
            ]
        }
    } else if str_eq(t, "DeleteEvent") {
        vec![
            painted("Deleted"),
            plain(" "),
            painted(event.artifact.as_str()),
            plain(" "),
            painted(resource),
            plain(" in "),
            painted(repo),
        ]
    } else if str_eq(t, "MemberEvent") {
        vec![
            Piece::Painted(capitalize_first(action)),
            plain(" "),
            painted(resource),
            plain(" to "),
            painted(repo),
        ]
    } else {
        vec![
            Piece::Painted(capitalize_first(action)),
            plain(" "),
            painted(resource),
            plain(" in "),
            painted(repo),
        ]
    };
    assert(pieces@.map_values(|p: Piece| p@) =~= line_template(event@));
    proof {
        if text_fields_plain(event@) {
            lemma_template_words_plain();
            let n: u64 = match event.count {
                Some(c) => c,
                None => 0,
            };
            lemma_decimal_plain(n as nat);
            assert(no_escape(commit_count_text(event.count)));
            assert(no_escape("issue "@ + event@.ref_resource));
            assert(no_escape("commit "@ + event@.ref_resource));
        }
    }
    pieces
}

/// Describes `event` in one line, each word group painted in a random colour
/// of the palette (or left plain where colouring is off).
pub fn format_event(event: &ParsedEvent) -> (res: String)
    ensures
        exists|outs: Seq<Seq<char>>|
            renders(line_template(event@), outs) && res@ == #[trigger] outs.flatten(),
        text_fields_plain(event@) ==> shown(res@) == plain_line(event@),
{
    let pieces = line_pieces(event);
    let ghost t = line_template(event@);
    let n = pieces.len();
    let mut line = String::new();
    let ghost mut outs: Seq<Seq<char>> = Seq::empty();
    let mut i: usize = 0;
    while i < n
        invariant
            n == pieces@.len(),
            pieces@.map_values(|p: Piece| p@) == t,
            i <= n,
            outs.len() == i,
            forall|j: int| 0 <= j < i ==> #[trigger] piece_rendered(t[j], outs[j]),
            line@ == outs.flatten_alt(),
        decreases n - i,
    {
        let ghost outs_before = outs;
        assert(t[i as int] == pieces@[i as int]@);
        match &pieces[i] {
            Piece::Plain(s) => {
                line.append(s.as_str());
                proof {
                    outs = outs.push(s@);
                }
            },
            Piece::Painted(s) => {
                let p = paint(s.as_str());
                line.append(p.as_str());
                proof {
                    outs = outs.push(p@);
                }
            },
        }
        assert(outs.drop_last() =~= outs_before);
        i = i + 1;
    }
    proof {
        outs.lemma_flatten_and_flatten_alt_are_equivalent();
        assert(renders(t, outs));
        if text_fields_plain(event@) {
            lemma_format_event_shows_plain_line(event@, outs);
        }
    }
    line
}


/// What a terminal shows of `s`, reading it from outside (`false`) or from
/// inside (`true`) an escape sequence: an escape sequence runs from an
/// escape character up to and including the next `m`, and is not shown.
pub open spec fn shown_from(s: Seq<char>, in_sequence: bool) -> Seq<char>
    decreases s.len(),
{
    if s.len() == 0 {
        Seq::empty()
    } else if in_sequence {
        shown_from(s.drop_first(), s[0] != 'm')
    } else if s[0] == '\x1b' {
        shown_from(s.drop_first(), true)
    } else {
        seq![s[0]] + shown_from(s.drop_first(), false)
    }
}

/// What a terminal shows of `s`: `s` without its colour escape sequences.
pub open spec fn shown(s: Seq<char>) -> Seq<char> {
    shown_from(s, false)
}

proof fn lemma_shown_plain_prefix(s: Seq<char>, t: Seq<char>)
    requires
        no_escape(s),
    ensures
        shown(s + t) == s + shown(t),
    decreases s.len(),
{
    if s.len() > 0 {
        assert((s + t).drop_first() =~= s.drop_first() + t);
        assert((s + t)[0] == s[0]);
        lemma_shown_plain_prefix(s.drop_first(), t);
        assert(s =~= seq![s[0]] + s.drop_first());
    } else {
        assert(s + t =~= t);
    }
}

proof fn lemma_shown_inside(code: Seq<char>, t: Seq<char>)
    requires
        forall|i: int| 0 <= i < code.len() ==> #[trigger] code[i] != 'm',
    ensures
        shown_from(code + seq!['m'] + t, true) == shown(t),
    decreases code.len(),
{
    let x = code + seq!['m'] + t;
    if code.len() > 0 {
        assert(x.drop_first() =~= code.drop_first() + seq!['m'] + t);
        assert(x[0] == code[0]);
        lemma_shown_inside(code.drop_first(), t);
    } else {
        assert(x.drop_first() =~= t);
        assert(x[0] == 'm');
    }
}

proof fn lemma_shown_sequence(code: Seq<char>, t: Seq<char>)
    requires
        forall|i: int| 0 <= i < code.len() ==> #[trigger] code[i] != 'm',
    ensures
        shown(seq!['\x1b', '['] + code + seq!['m'] + t) == shown(t),
{
    let x = seq!['\x1b', '['] + code + seq!['m'] + t;
    let y = seq!['['] + code;
    assert(x.drop_first() =~= y + seq!['m'] + t);
    assert(x[0] == '\x1b');
    assert forall|i: int| 0 <= i < y.len() implies #[trigger] y[i] != 'm' by {
        if i > 0 {
            assert(y[i] == code[i - 1]);
        }
    }
    lemma_shown_inside(y, t);
}

proof fn lemma_escape_resets_plain(s: Seq<char>, style: Seq<char>)
    requires
        no_escape(s),
    ensures
        escape_resets(s, style) == s,
    decreases s.len(),
{
    if s.len() > 0 {
        assert(!reset_code().is_prefix_of(s)) by {
            if reset_code().is_prefix_of(s) {
                assert(s[0] == reset_code()[0]);
            }
        }
        lemma_escape_resets_plain(s.drop_first(), style);
        assert(s =~= seq![s[0]] + s.drop_first());
    }
}

proof fn lemma_ansi_code_digits(c: Color)
    ensures
        forall|i: int| 0 <= i < ansi_code(c).len() ==> #[trigger] ansi_code(c)[i] != 'm',
{
    reveal_strlit("31");
    reveal_strlit("32");
    reveal_strlit("33");
    reveal_strlit("34");
    reveal_strlit("35");
    reveal_strlit("36");
    reveal_strlit("91");
    reveal_strlit("92");
    reveal_strlit("93");
    reveal_strlit("94");
    reveal_strlit("95");
    reveal_strlit("96");
}

proof fn lemma_shown_painted(s: Seq<char>, out: Seq<char>, t: Seq<char>)
    requires
        no_escape(s),
        painted_as(s, out),
    ensures
        shown(out + t) == s + shown(t),
{
    if out == s {
        lemma_shown_plain_prefix(s, t);
    } else {
        let c = choose|c: Color| palette().contains(c) && out == #[trigger] styled(s, c);
        lemma_escape_resets_plain(s, style_of(c));
        lemma_ansi_code_digits(c);
        let rest = s + reset_code() + t;
        assert(out + t =~= seq!['\x1b', '['] + ansi_code(c) + seq!['m'] + rest);
        lemma_shown_sequence(ansi_code(c), rest);
        assert(rest =~= s + (reset_code() + t));
        lemma_shown_plain_prefix(s, reset_code() + t);
        let zero = seq!['0'];
        assert forall|i: int| 0 <= i < zero.len() implies #[trigger] zero[i] != 'm' by {}
        assert(reset_code() + t =~= seq!['\x1b', '['] + zero + seq!['m'] + t);
        lemma_shown_sequence(zero, t);
    }
}

/// Painting never changes the words: where `value` holds no escape
/// character, a terminal shows exactly `value` for whatever `paint` gives.
pub proof fn lemma_paint_shows_value(value: Seq<char>, out: Seq<char>)
    requires
        no_escape(value),
        painted_as(value, out),
    ensures
        shown(out) == value,
{
    lemma_shown_painted(value, out, Seq::empty());
    assert(value + Seq::<char>::empty() =~= value);
}

proof fn lemma_shown_rendered(t: Seq<PieceView>, outs: Seq<Seq<char>>)
    requires
        renders(t, outs),
        forall|i: int| 0 <= i < t.len() ==> no_escape(#[trigger] piece_text(t[i])),
    ensures
        shown(outs.flatten()) == t.map_values(|p: PieceView| piece_text(p)).flatten(),
    decreases t.len(),
{
    let texts = t.map_values(|p: PieceView| piece_text(p));
    if t.len() > 0 {
        let t1 = t.drop_first();
        let o1 = outs.drop_first();
        assert(renders(t1, o1)) by {
            assert forall|i: int| 0 <= i < t1.len() implies #[trigger] piece_rendered(
                t1[i],
                o1[i],
            ) by {
                assert(piece_rendered(t[i + 1], outs[i + 1]));
            }
        }
        assert forall|i: int| 0 <= i < t1.len() implies no_escape(#[trigger] piece_text(t1[i])) by {
            assert(no_escape(piece_text(t[i + 1])));
        }
        lemma_shown_rendered(t1, o1);
        assert(texts.drop_first() =~= t1.map_values(|p: PieceView| piece_text(p)));
        assert(piece_rendered(t[0], outs[0]));
        assert(no_escape(piece_text(t[0])));
        lemma_shown_painted(piece_text(t[0]), outs[0], o1.flatten());
    }
}

/// Colours never change the words of a description: where no piece of the
/// description of `e` holds an escape character, a terminal shows exactly
/// the uncoloured line for whatever `format_event` gives.
pub proof fn lemma_format_event_shows_plain_line(e: ParsedEventView, outs: Seq<Seq<char>>)
    requires
        renders(line_template(e), outs),
        forall|i: int|
            0 <= i < line_template(e).len() ==> no_escape(#[trigger] piece_text(line_template(e)[i])),
    ensures
        shown(outs.flatten()) == plain_line(e),
{
    lemma_shown_rendered(line_template(e), outs);
}

/// A description depends on an event's type, repository, artifact, action,
/// resource and count alone, never on its visibility or time: two events
/// that agree on those have the same pieces and the same uncoloured line.
/// With `format_event`'s contract, where those texts hold no escape
/// character, a terminal shows the same line for both, whatever colours the
/// two calls pick.
pub proof fn lemma_line_depends_on_text_only(e1: ParsedEventView, e2: ParsedEventView)
    requires
        e1.event_type == e2.event_type,
        e1.repo == e2.repo,
        e1.artifact == e2.artifact,
        e1.ref_action == e2.ref_action,
        e1.ref_resource == e2.ref_resource,
        e1.count == e2.count,
    ensures
        line_template(e1) == line_template(e2),
        plain_line(e1) == plain_line(e2),
{
}


proof fn lemma_flatten3(x0: Seq<char>, x1: Seq<char>, x2: Seq<char>)
    ensures
        seq![x0, x1, x2].flatten() == x0 + x1 + x2,
{
    assert(Seq::<Seq<char>>::empty().flatten() =~= Seq::<char>::empty());
    assert(seq![x2].drop_first() =~= Seq::<Seq<char>>::empty());
    assert(seq![x2].flatten() =~= x2);
    assert(seq![x1, x2].drop_first() =~= seq![x2]);
    assert(seq![x1, x2].flatten() =~= x1 + x2);
    assert(seq![x0, x1, x2].drop_first() =~= seq![x1, x2]);
    assert(seq![x0, x1, x2].flatten() =~= x0 + x1 + x2);
}

proof fn lemma_flatten5(x0: Seq<char>, x1: Seq<char>, x2: Seq<char>, x3: Seq<char>, x4: Seq<char>)
    ensures
        seq![x0, x1, x2, x3, x4].flatten() == x0 + x1 + x2 + x3 + x4,
{
    assert(Seq::<Seq<char>>::empty().flatten() =~= Seq::<char>::empty());
    assert(seq![x4].drop_first() =~= Seq::<Seq<char>>::empty());
    assert(seq![x4].flatten() =~= x4);
    assert(seq![x3, x4].drop_first() =~= seq![x4]);
    assert(seq![x3, x4].flatten() =~= x3 + x4);
    assert(seq![x2, x3, x4].drop_first() =~= seq![x3, x4]);
    assert(seq![x2, x3, x4].flatten() =~= x2 + x3 + x4);
    assert(seq![x1, x2, x3, x4].drop_first() =~= seq![x2, x3, x4]);
    assert(seq![x1, x2, x3, x4].flatten() =~= x1 + x2 + x3 + x4);
    assert(seq![x0, x1, x2, x3, x4].drop_first() =~= seq![x1, x2, x3, x4]);
    assert(seq![x0, x1, x2, x3, x4].flatten() =~= x0 + x1 + x2 + x3 + x4);
}

proof fn lemma_flatten7(x0: Seq<char>, x1: Seq<char>, x2: Seq<char>, x3: Seq<char>, x4: Seq<char>, x5: Seq<char>, x6: Seq<char>)
    ensures
        seq![x0, x1, x2, x3, x4, x5, x6].flatten() == x0 + x1 + x2 + x3 + x4 + x5 + x6,
{
    assert(Seq::<Seq<char>>::empty().flatten() =~= Seq::<char>::empty());
    assert(seq![x6].drop_first() =~= Seq::<Seq<char>>::empty());
    assert(seq![x6].flatten() =~= x6);
    assert(seq![x5, x6].drop_first() =~= seq![x6]);
    assert(seq![x5, x6].flatten() =~= x5 + x6);
    assert(seq![x4, x5, x6].drop_first() =~= seq![x5, x6]);
    assert(seq![x4, x5, x6].flatten() =~= x4 + x5 + x6);
    assert(seq![x3, x4, x5, x6].drop_first() =~= seq![x4, x5, x6]);
    assert(seq![x3, x4, x5, x6].flatten() =~= x3 + x4 + x5 + x6);
    assert(seq![x2, x3, x4, x5, x6].drop_first() =~= seq![x3, x4, x5, x6]);
    assert(seq![x2, x3, x4, x5, x6].flatten() =~= x2 + x3 + x4 + x5 + x6);
    assert(seq![x1, x2, x3, x4, x5, x6].drop_first() =~= seq![x2, x3, x4, x5, x6]);
    assert(seq![x1, x2, x3, x4, x5, x6].flatten() =~= x1 + x2 + x3 + x4 + x5 + x6);
    assert(seq![x0, x1, x2, x3, x4, x5, x6].drop_first() =~= seq![x1, x2, x3, x4, x5, x6]);
    assert(seq![x0, x1, x2, x3, x4, x5, x6].flatten() =~= x0 + x1 + x2 + x3 + x4 + x5 + x6);
}

/// The uncoloured line of each kind of event, in terms of its fields: e.g. a
/// `CreateEvent` of anything but a repository reads "Created <artifact>
/// <resource> in <repo>", a push "Pushed <count> to <repo>", and an event of
/// a type the tool has no wording for "<Action> <resource> in <repo>". With
/// `format_event`'s contract this is what a terminal shows.
pub proof fn lemma_plain_lines(e: ParsedEventView)
    ensures
        e.event_type == "PushEvent"@ ==> plain_line(e) == "Pushed"@ + " "@ + commit_count_text(e.count) + " to "@ + e.repo,
        e.event_type == "WatchEvent"@ ==> plain_line(e) == "Starred"@ + " "@ + e.repo,
        (e.event_type == "IssuesEvent"@ || e.event_type == "IssueEvent"@) && e.ref_action == "opened"@ ==> plain_line(e) == capitalized(e.ref_action) + " a "@ + "new issue"@ + " in "@ + e.repo,
        (e.event_type == "IssuesEvent"@ || e.event_type == "IssueEvent"@) && e.ref_action != "opened"@ ==> plain_line(e) == capitalized(e.ref_action) + " an "@ + "issue"@ + " in "@ + e.repo,
        e.event_type == "IssueCommentEvent"@ && e.ref_resource == "issue"@ ==> plain_line(e) == "Commented"@ + " on "@ + "issue"@ + " in "@ + e.repo,
        e.event_type == "IssueCommentEvent"@ && e.ref_resource != "issue"@ ==> plain_line(e) == "Commented"@ + " on "@ + "issue "@ + e.ref_resource + " in "@ + e.repo,
        e.event_type == "PullRequestEvent"@ ==> plain_line(e) == capitalized(e.ref_action) + " a "@ + "pull request"@ + " in "@ + e.repo,
        e.event_type == "PullRequestReviewEvent"@ && e.ref_action == "created"@ ==> plain_line(e) == "Reviewed"@ + " a "@ + "pull request review"@ + " in "@ + e.repo,
        e.event_type == "PullRequestReviewEvent"@ && e.ref_action != "created"@ ==> plain_line(e) == capitalized(e.ref_action) + " a "@ + "pull request review"@ + " in "@ + e.repo,
        e.event_type == "CommitCommentEvent"@ && e.ref_resource == "commit comment"@ ==> plain_line(e) == "Commented"@ + " on "@ + "commit"@ + " in "@ + e.repo,
        e.event_type == "CommitCommentEvent"@ && e.ref_resource != "commit comment"@ ==> plain_line(e) == "Commented"@ + " on "@ + "commit "@ + e.ref_resource + " in "@ + e.repo,
        e.event_type == "DiscussionEvent"@ ==> plain_line(e) == capitalized(e.ref_action) + " a "@ + "discussion"@ + " in "@ + e.repo,
        e.event_type == "ForkEvent"@ && e.ref_resource != "fork"@ ==> plain_line(e) == "Forked"@ + " "@ + e.repo + " to "@ + e.ref_resource,
        e.event_type == "ForkEvent"@ && e.ref_resource == "fork"@ ==> plain_line(e) == "Forked"@ + " "@ + e.repo,
        e.event_type == "CreateEvent"@ && e.artifact == "repository"@ ==> plain_line(e) == "Created"@ + " "@ + "repository"@ + " "@ + e.repo,
        e.event_type == "CreateEvent"@ && e.artifact != "repository"@ ==> plain_line(e) == "Created"@ + " "@ + e.artifact + " "@ + e.ref_resource + " in "@ + e.repo,
        e.event_type == "DeleteEvent"@ ==> plain_line(e) == "Deleted"@ + " "@ + e.artifact + " "@ + e.ref_resource + " in "@ + e.repo,
        e.event_type == "MemberEvent"@ ==> plain_line(e) == capitalized(e.ref_action) + " "@ + e.ref_resource + " to "@ + e.repo,
        (e.event_type != "PushEvent"@ && e.event_type != "WatchEvent"@ && e.event_type != "IssuesEvent"@ && e.event_type != "IssueEvent"@ && e.event_type != "IssueCommentEvent"@ && e.event_type != "PullRequestEvent"@ && e.event_type != "PullRequestReviewEvent"@ && e.event_type != "CommitCommentEvent"@ && e.event_type != "DiscussionEvent"@ && e.event_type != "ForkEvent"@ && e.event_type != "CreateEvent"@ && e.event_type != "DeleteEvent"@ && e.event_type != "MemberEvent"@) ==> plain_line(e) == capitalized(e.ref_action) + " "@ + e.ref_resource + " in "@ + e.repo,
{
    lemma_type_names_distinct();
    let texts = line_template(e).map_values(|p: PieceView| piece_text(p));
    if e.event_type == "PushEvent"@ {
        assert(texts =~= seq!["Pushed"@, " "@, commit_count_text(e.count), " to "@, e.repo]);
        lemma_flatten5("Pushed"@, " "@, commit_count_text(e.count), " to "@, e.repo);
    }
    if e.event_type == "WatchEvent"@ {
        assert(texts =~= seq!["Starred"@, " "@, e.repo]);
        lemma_flatten3("Starred"@, " "@, e.repo);
    }
    if (e.event_type == "IssuesEvent"@ || e.event_type == "IssueEvent"@) && e.ref_action == "opened"@ {
        assert(texts =~= seq![capitalized(e.ref_action), " a "@, "new issue"@, " in "@, e.repo]);
        lemma_flatten5(capitalized(e.ref_action), " a "@, "new issue"@, " in "@, e.repo);
    }
    if (e.event_type == "IssuesEvent"@ || e.event_type == "IssueEvent"@) && e.ref_action != "opened"@ {
        assert(texts =~= seq![capitalized(e.ref_action), " an "@, "issue"@, " in "@, e.repo]);
        lemma_flatten5(capitalized(e.ref_action), " an "@, "issue"@, " in "@, e.repo);
    }
    if e.event_type == "IssueCommentEvent"@ && e.ref_resource == "issue"@ {
        assert(texts =~= seq!["Commented"@, " on "@, "issue"@, " in "@, e.repo]);
        lemma_flatten5("Commented"@, " on "@, "issue"@, " in "@, e.repo);
    }
    if e.event_type == "IssueCommentEvent"@ && e.ref_resource != "issue"@ {
        assert(texts =~= seq!["Commented"@, " on "@, "issue "@ + e.ref_resource, " in "@, e.repo]);
        lemma_flatten5("Commented"@, " on "@, "issue "@ + e.ref_resource, " in "@, e.repo);
    }
    if e.event_type == "PullRequestEvent"@ {
        assert(texts =~= seq![capitalized(e.ref_action), " a "@, "pull request"@, " in "@, e.repo]);
        lemma_flatten5(capitalized(e.ref_action), " a "@, "pull request"@, " in "@, e.repo);
    }
    if e.event_type == "PullRequestReviewEvent"@ && e.ref_action == "created"@ {
        assert(texts =~= seq!["Reviewed"@, " a "@, "pull request review"@, " in "@, e.repo]);
        lemma_flatten5("Reviewed"@, " a "@, "pull request review"@, " in "@, e.repo);
    }
    if e.event_type == "PullRequestReviewEvent"@ && e.ref_action != "created"@ {
        assert(texts =~= seq![capitalized(e.ref_action), " a "@, "pull request review"@, " in "@, e.repo]);
        lemma_flatten5(capitalized(e.ref_action), " a "@, "pull request review"@, " in "@, e.repo);
    }
    if e.event_type == "CommitCommentEvent"@ && e.ref_resource == "commit comment"@ {
        assert(texts =~= seq!["Commented"@, " on "@, "commit"@, " in "@, e.repo]);
        lemma_flatten5("Commented"@, " on "@, "commit"@, " in "@, e.repo);
    }
    if e.event_type == "CommitCommentEvent"@ && e.ref_resource != "commit comment"@ {
        assert(texts =~= seq!["Commented"@, " on "@, "commit "@ + e.ref_resource, " in "@, e.repo]);
        lemma_flatten5("Commented"@, " on "@, "commit "@ + e.ref_resource, " in "@, e.repo);
    }
    if e.event_type == "DiscussionEvent"@ {
        assert(texts =~= seq![capitalized(e.ref_action), " a "@, "discussion"@, " in "@, e.repo]);
        lemma_flatten5(capitalized(e.ref_action), " a "@, "discussion"@, " in "@, e.repo);
    }
    if e.event_type == "ForkEvent"@ && e.ref_resource != "fork"@ {
        assert(texts =~= seq!["Forked"@, " "@, e.repo, " to "@, e.ref_resource]);
        lemma_flatten5("Forked"@, " "@, e.repo, " to "@, e.ref_resource);
    }
    if e.event_type == "ForkEvent"@ && e.ref_resource == "fork"@ {
        assert(texts =~= seq!["Forked"@, " "@, e.repo]);
        lemma_flatten3("Forked"@, " "@, e.repo);
    }
    if e.event_type == "CreateEvent"@ && e.artifact == "repository"@ {
        assert(texts =~= seq!["Created"@, " "@, "repository"@, " "@, e.repo]);
        lemma_flatten5("Created"@, " "@, "repository"@, " "@, e.repo);
    }
    if e.event_type == "CreateEvent"@ && e.artifact != "repository"@ {
        assert(texts =~= seq!["Created"@, " "@, e.artifact, " "@, e.ref_resource, " in "@, e.repo]);
        lemma_flatten7("Created"@, " "@, e.artifact, " "@, e.ref_resource, " in "@, e.repo);
    }
    if e.event_type == "DeleteEvent"@ {
        assert(texts =~= seq!["Deleted"@, " "@, e.artifact, " "@, e.ref_resource, " in "@, e.repo]);
        lemma_flatten7("Deleted"@, " "@, e.artifact, " "@, e.ref_resource, " in "@, e.repo);
    }
    if e.event_type == "MemberEvent"@ {
        assert(texts =~= seq![capitalized(e.ref_action), " "@, e.ref_resource, " to "@, e.repo]);
        lemma_flatten5(capitalized(e.ref_action), " "@, e.ref_resource, " to "@, e.repo);
    }
    if (e.event_type != "PushEvent"@ && e.event_type != "WatchEvent"@ && e.event_type != "IssuesEvent"@ && e.event_type != "IssueEvent"@ && e.event_type != "IssueCommentEvent"@ && e.event_type != "PullRequestEvent"@ && e.event_type != "PullRequestReviewEvent"@ && e.event_type != "CommitCommentEvent"@ && e.event_type != "DiscussionEvent"@ && e.event_type != "ForkEvent"@ && e.event_type != "CreateEvent"@ && e.event_type != "DeleteEvent"@ && e.event_type != "MemberEvent"@) {
        assert(texts =~= seq![capitalized(e.ref_action), " "@, e.ref_resource, " in "@, e.repo]);
        lemma_flatten5(capitalized(e.ref_action), " "@, e.ref_resource, " in "@, e.repo);
    }
}

/// How a push counts its commits: "1 commit", "<n> commits" for more, and
/// just "commits" where the count is absent or zero.
pub proof fn lemma_commit_count_words(count: Option<u64>)
    ensures
        count == Some(1u64) ==> commit_count_text(count) == decimal(1) + " "@ + "commit"@,
        count is Some && count->0 > 1 ==> commit_count_text(count) == decimal(count->0 as nat)
            + " "@ + "commits"@,
        (count is None || count == Some(0u64)) ==> commit_count_text(count) == "commits"@,
{
}

} // verus!
