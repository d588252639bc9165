//! The pieces of the command line's output, each with the ink it is
//! printed in. Turning inks into terminal colours (only when the output is
//! a terminal) happens outside the library.
//!
//! Inks follow one scheme: green for success, cyan for what is active, red
//! for destruction and high priority, yellow for work in progress, blue for
//! new work, dim for low-signal metadata (ids, dates, separators).

use vstd::prelude::*;

use crate::clock::{format_ymd, ymd_date_text, Timestamp};
use crate::models::priority::Priority;
use crate::models::status::Status;
use crate::models::subtask::Subtask;
use crate::models::task::Task;
use crate::text::{chars_of, decimal, push_decimal, push_repeat, repeat_spec};

verus! {

broadcast use vstd::string::group_string_axioms;

/// How a piece of output is printed.
#[derive(Debug, Clone, Copy, PartialEq, Eq, Structural)]
pub enum Ink {
    Plain,
    Dim,
    White,
    Cyan,
    CyanBold,
    GreenBold,
    RedBold,
    YellowBold,
    BlueBold,
}

/// A piece of output text and its ink.
#[derive(Debug)]
pub struct Styled {
    pub text: String,
    pub ink: Ink,
}

/// The text and ink of each piece.
pub open spec fn styled_view(v: Seq<Styled>) -> Seq<(Seq<char>, Ink)> {
    v.map_values(|p: Styled| (p.text@, p.ink))
}

/// `s` followed by blanks up to `width` characters (unchanged when it is
/// already that long), as `{:<width$}` formats it.
pub open spec fn pad_spec(s: Seq<char>, width: nat) -> Seq<char> {
    if s.len() < width {
        s + repeat_spec(" "@, (width - s.len()) as nat)
    } else {
        s
    }
}

/// `s` padded with blanks to `width` characters (see `pad_spec`).
pub fn pad_right(s: &str, width: usize) -> (r: String)
    ensures
        r@ == pad_spec(s@, width as nat),
{
    let n: usize = chars_of(s).len();
    let mut r = s.to_owned();
    if n < width {
        push_repeat(&mut r, " ", width - n);
    }
    r
}

/// A piece of the literal `text` in `ink`.
fn styled(text: &str, ink: Ink) -> (p: Styled)
    ensures
        p.text@ == text@,
        p.ink == ink,
{
    Styled { text: text.to_owned(), ink }
}

/// A label padded to eight characters in bold green, for successful
/// creations.
pub fn action_green(label: &str) -> (p: Styled)
    ensures
        p.text@ == pad_spec(label@, 8),
        p.ink == Ink::GreenBold,
{
    Styled { text: pad_right(label, 8), ink: Ink::GreenBold }
}

/// A label padded to eight characters in bold cyan, for focus changes.
pub fn action_cyan(label: &str) -> (p: Styled)
    ensures
        p.text@ == pad_spec(label@, 8),
        p.ink == Ink::CyanBold,
{
    Styled { text: pad_right(label, 8), ink: Ink::CyanBold }
}

/// A label padded to eight characters in bold red, for deletions.
pub fn action_red(label: &str) -> (p: Styled)
    ensures
        p.text@ == pad_spec(label@, 8),
        p.ink == Ink::RedBold,
{
    Styled { text: pad_right(label, 8), ink: Ink::RedBold }
}

/// `error:` in bold red, before an error message.
pub fn error_prefix() -> (p: Styled)
    ensures
        p.text@ == "error:"@,
        p.ink == Ink::RedBold,
{
    styled("error:", Ink::RedBold)
}

/// An id as `[n]`, dimmed.
pub fn fmt_id(id: u32) -> (p: Styled)
    ensures
        p.text@ == "["@ + decimal(id as nat) + "]"@,
        p.ink == Ink::Dim,
{
    let mut text = "[".to_owned();
    push_decimal(&mut text, id as u64);
    text.append("]");
    Styled { text, ink: Ink::Dim }
}

/// The date of a timestamp (`YYYY-MM-DD`).
pub open spec fn date_text(ts: Timestamp) -> Seq<char> {
    ymd_date_text(ts.secs, ts.nanos)
}

/// A date as `YYYY-MM-DD`, dimmed.
pub fn fmt_date(ts: &Timestamp) -> (p: Styled)
    ensures
        p.text@ == date_text(*ts),
        p.ink == Ink::Dim,
{
    Styled { text: format_ymd(ts), ink: Ink::Dim }
}

/// The two-character priority symbol: a bold red `!!` for high, a white
/// ` ·` for medium, a dim ` ·` for low.
pub open spec fn priority_symbol_spec(p: Priority) -> Seq<(Seq<char>, Ink)> {
    match p {
        Priority::High => seq![("!!"@, Ink::RedBold)],
        Priority::Medium => seq![(" "@, Ink::Plain), ("·"@, Ink::White)],
        Priority::Low => seq![(" "@, Ink::Plain), ("·"@, Ink::Dim)],
    }
}

/// Appends the priority symbol of `p` (see `priority_symbol_spec`).
fn push_priority_symbol(out: &mut Vec<Styled>, p: Priority)
    ensures
        styled_view(final(out)@) == styled_view(old(out)@) + priority_symbol_spec(p),
{
    let ghost start = styled_view(out@);
    match p {
        Priority::High => {
            out.push(styled("!!", Ink::RedBold));
        },
        Priority::Medium => {
            out.push(styled(" ", Ink::Plain));
            out.push(styled("·", Ink::White));
        },
        Priority::Low => {
            out.push(styled(" ", Ink::Plain));
            out.push(styled("·", Ink::Dim));
        },
    }
    assert(styled_view(out@) =~= start + priority_symbol_spec(p));
}

/// The priority symbol of `p` (see `priority_symbol_spec`).
pub fn fmt_priority_symbol(p: &Priority) -> (v: Vec<Styled>)
    ensures
        styled_view(v@) == priority_symbol_spec(*p),
{
    let mut v: Vec<Styled> = Vec::new();
    push_priority_symbol(&mut v, *p);
    assert(styled_view(Seq::<Styled>::empty()) =~= Seq::empty());
    v
}

/// The priority as a word: a bold red `high`, a plain `medium`, a dim
/// `low`.
pub open spec fn priority_label_spec(p: Priority) -> (Seq<char>, Ink) {
    match p {
        Priority::High => ("high"@, Ink::RedBold),
        Priority::Medium => ("medium"@, Ink::Plain),
        Priority::Low => ("low"@, Ink::Dim),
    }
}

/// The priority as a word (see `priority_label_spec`).
pub fn fmt_priority_label(p: &Priority) -> (r: Styled)
    ensures
        (r.text@, r.ink) == priority_label_spec(*p),
{
    match p {
        Priority::High => styled("high", Ink::RedBold),
        Priority::Medium => styled("medium", Ink::Plain),
        Priority::Low => styled("low", Ink::Dim),
    }
}

/// The header of a status section: a symbol, the status name in its bold
/// colour, and a dim rule of 44 `─`.
pub open spec fn status_header_spec(s: Status) -> Seq<(Seq<char>, Ink)> {
    let (symbol, label) = match s {
        Status::InProgress => ("● "@, ("In Progress"@, Ink::YellowBold)),
        Status::New => ("● "@, ("New"@, Ink::BlueBold)),
        Status::Completed => ("✓ "@, ("Completed"@, Ink::GreenBold)),
    };
    seq![(symbol, Ink::Plain), label, (" "@, Ink::Plain), (repeat_spec("─"@, 44), Ink::Dim)]
}

/// The header of the section for `s` (see `status_header_spec`).
pub fn fmt_status_header(s: &Status) -> (v: Vec<Styled>)
    ensures
        styled_view(v@) == status_header_spec(*s),
{
    let mut v: Vec<Styled> = Vec::new();
    match s {
        Status::InProgress => {
            v.push(styled("● ", Ink::Plain));
            v.push(styled("In Progress", Ink::YellowBold));
        },
        Status::New => {
            v.push(styled("● ", Ink::Plain));
            v.push(styled("New", Ink::BlueBold));
        },
        Status::Completed => {
            v.push(styled("✓ ", Ink::Plain));
            v.push(styled("Completed", Ink::GreenBold));
        },
    }
    v.push(styled(" ", Ink::Plain));
    let mut rule = String::new();
    push_repeat(&mut rule, "─", 44);
    v.push(Styled { text: rule, ink: Ink::Dim });
    assert(styled_view(v@) =~= status_header_spec(*s));
    v
}

/// The marker of a task line: a bold cyan `→` for the active task, else a
/// bold red `!` for high priority, else a blank.
pub open spec fn marker_spec(t: Task, is_active: bool) -> (Seq<char>, Ink) {
    if is_active {
        ("→"@, Ink::CyanBold)
    } else if t.priority == Priority::High {
        ("!"@, Ink::RedBold)
    } else {
        (" "@, Ink::Plain)
    }
}

/// A task line of the task list: id, marker, description padded to
/// `width`, priority symbol and date.
pub open spec fn task_line_spec(t: Task, is_active: bool, width: nat) -> Seq<(Seq<char>, Ink)> {
    seq![
        ("  "@, Ink::Plain),
        ("["@ + decimal(t.id as nat) + "]"@, Ink::Dim),
        (" "@, Ink::Plain),
        marker_spec(t, is_active),
        (" "@, Ink::Plain),
        (pad_spec(t.description@, width), Ink::Plain),
        ("  "@, Ink::Plain),
    ] + priority_symbol_spec(t.priority) + seq![
        ("  "@, Ink::Plain),
        (date_text(t.created_at), Ink::Dim),
    ]
}

/// A task line of the task list (see `task_line_spec`).
pub fn fmt_task_line(t: &Task, is_active: bool, width: usize) -> (v: Vec<Styled>)
    ensures
        styled_view(v@) == task_line_spec(*t, is_active, width as nat),
{
    let mut v: Vec<Styled> = Vec::new();
    v.push(styled("  ", Ink::Plain));
    v.push(fmt_id(t.id));
    v.push(styled(" ", Ink::Plain));
    if is_active {
        v.push(styled("→", Ink::CyanBold));
    } else if t.priority == Priority::High {
        v.push(styled("!", Ink::RedBold));
    } else {
        v.push(styled(" ", Ink::Plain));
    }
    v.push(styled(" ", Ink::Plain));
    v.push(Styled { text: pad_right(t.description.as_str(), width), ink: Ink::Plain });
    v.push(styled("  ", Ink::Plain));
    let ghost head = seq![
        ("  "@, Ink::Plain),
        ("["@ + decimal(t.id as nat) + "]"@, Ink::Dim),
        (" "@, Ink::Plain),
        marker_spec(*t, is_active),
        (" "@, Ink::Plain),
        (pad_spec(t.description@, width as nat), Ink::Plain),
        ("  "@, Ink::Plain),
    ];
    assert(styled_view(v@) =~= head);
    push_priority_symbol(&mut v, t.priority);
    let ghost mid = styled_view(v@);
    v.push(styled("  ", Ink::Plain));
    v.push(fmt_date(&t.created_at));
    assert(styled_view(v@) =~= mid + seq![("  "@, Ink::Plain), (date_text(t.created_at), Ink::Dim)]);
    assert(styled_view(v@) =~= task_line_spec(*t, is_active, width as nat));
    v
}

/// A subtask line of the task list: a dim arrow, id, description padded to
/// `width`, priority symbol and date.
pub open spec fn sub_line_spec(s: Subtask, width: nat) -> Seq<(Seq<char>, Ink)> {
    seq![
        ("      "@, Ink::Plain),
        ("↳"@, Ink::Dim),
        (" "@, Ink::Plain),
        ("["@ + decimal(s.id as nat) + "]"@, Ink::Dim),
        (" "@, Ink::Plain),
        (pad_spec(s.description@, width), Ink::Plain),
        ("  "@, Ink::Plain),
    ] + priority_symbol_spec(s.priority) + seq![
        ("  "@, Ink::Plain),
        (date_text(s.created_at), Ink::Dim),
    ]
}

/// A subtask line of the task list (see `sub_line_spec`).
pub fn fmt_sub_line(s: &Subtask, width: usize) -> (v: Vec<Styled>)
    ensures
        styled_view(v@) == sub_line_spec(*s, width as nat),
{
    let mut v: Vec<Styled> = Vec::new();
    v.push(styled("      ", Ink::Plain));
    v.push(styled("↳", Ink::Dim));
    v.push(styled(" ", Ink::Plain));
    v.push(fmt_id(s.id));
    v.push(styled(" ", Ink::Plain));
    v.push(Styled { text: pad_right(s.description.as_str(), width), ink: Ink::Plain });
    v.push(styled("  ", Ink::Plain));
    let ghost head = seq![
        ("      "@, Ink::Plain),
        ("↳"@, Ink::Dim),
        (" "@, Ink::Plain),
        ("["@ + decimal(s.id as nat) + "]"@, Ink::Dim),
        (" "@, Ink::Plain),
        (pad_spec(s.description@, width as nat), Ink::Plain),
        ("  "@, Ink::Plain),
    ];
    assert(styled_view(v@) =~= head);
    push_priority_symbol(&mut v, s.priority);
    let ghost mid = styled_view(v@);
    v.push(styled("  ", Ink::Plain));
    v.push(fmt_date(&s.created_at));
    assert(styled_view(v@) =~= mid + seq![("  "@, Ink::Plain), (date_text(s.created_at), Ink::Dim)]);
    assert(styled_view(v@) =~= sub_line_spec(*s, width as nat));
    v
}

/// An item on one line, after an action: id, description, priority word
/// and date.
pub open spec fn action_spec(id: u32, description: Seq<char>, p: Priority, ts: Timestamp) -> Seq<
    (Seq<char>, Ink),
> {
    seq![
        ("["@ + decimal(id as nat) + "]"@, Ink::Dim),
        (" "@ + description + "   "@, Ink::Plain),
        priority_label_spec(p),
        ("   "@, Ink::Plain),
        (date_text(ts), Ink::Dim),
    ]
}

/// An item on one line, after an action (see `action_spec`).
pub fn fmt_action_item(id: u32, description: &str, p: Priority, ts: &Timestamp) -> (v: Vec<Styled>)
    ensures
        styled_view(v@) == action_spec(id, description@, p, *ts),
{
    let mut v: Vec<Styled> = Vec::new();
    v.push(fmt_id(id));
    let mut desc = " ".to_owned();
    desc.append(description);
    desc.append("   ");
    v.push(Styled { text: desc, ink: Ink::Plain });
    v.push(fmt_priority_label(&p));
    v.push(styled("   ", Ink::Plain));
    v.push(fmt_date(ts));
    assert(styled_view(v@) =~= action_spec(id, description@, p, *ts));
    v
}

/// A task on one line, after an action.
pub fn fmt_task_action(t: &Task) -> (v: Vec<Styled>)
    ensures
        styled_view(v@) == action_spec(t.id, t.description@, t.priority, t.created_at),
{
    fmt_action_item(t.id, t.description.as_str(), t.priority, &t.created_at)
}

} // verus!
