//! The full key help of each screen, grouped by category.
use vstd::prelude::*;
use crate::config::VReaderRole;

verus! {

pub struct InstructionDetail {
    pub key: String,
    pub description: String,
}

pub struct InstructionCategory {
    pub title: String,
    pub details: Vec<InstructionDetail>,
}

pub struct ScreenInstructions {
    pub categories: Vec<InstructionCategory>,
}

/// A help category as text: its title and its (key, description) lines.
pub type CategoryText = (Seq<char>, Seq<(Seq<char>, Seq<char>)>);

pub open spec fn category_text(c: InstructionCategory) -> CategoryText {
    (c.title@, c.details@.map_values(|d: InstructionDetail| (d.key@, d.description@)))
}

/// The help of a screen as text.
pub open spec fn instructions_text(s: ScreenInstructions) -> Seq<CategoryText> {
    s.categories@.map_values(|c: InstructionCategory| category_text(c))
}

fn detail(key: &str, description: &str) -> (r: InstructionDetail)
    ensures
        r.key@ == key@,
        r.description@ == description@,
{
    InstructionDetail { key: String::from_str(key), description: String::from_str(description) }
}

fn category(title: &str, details: Vec<InstructionDetail>) -> (r: InstructionCategory)
    ensures
        r.title@ == title@,
        r.details@ == details@,
{
    InstructionCategory { title: String::from_str(title), details }
}

pub open spec fn main_help(role: VReaderRole) -> Seq<CategoryText> {
    let navigation = (
        "Navigation"@,
        seq![
            ("j/k/\u{2193}/\u{2191}"@, "move selection"@),
            ("n/p"@, "next/previous category"@),
            ("g/G/Home/End"@, "beginning and end of list"@),
        ],
    );
    match role {
        VReaderRole::Kid => seq![
            navigation,
            (
                "Actions"@,
                seq![
                    ("Enter"@, "select category or read entry"@),
                    ("r"@, "toggle item read state"@),
                    ("R"@, "mark all items as read"@),
                ],
            ),
            ("App"@, seq![("</>"@, "change feed column width"@), ("Esc/q"@, "back from entries or quit"@)]),
        ],
        _ => seq![
            navigation,
            (
                "Actions"@,
                seq![
                    ("o"@, "open link externally"@),
                    ("L"@, "add/remove read later"@),
                    ("Enter"@, "select category or read entry"@),
                    ("r"@, "toggle item read state"@),
                    ("R"@, "mark all items as read"@),
                ],
            ),
            (
                "App"@,
                seq![
                    ("</>"@, "change feed column width"@),
                    ("t"@, "open theme picker"@),
                    ("Esc/q"@, "back from entries or quit"@),
                ],
            ),
        ],
    }
}

/// The main screen's help for a role; a kid's omits links, the read-later
/// list and themes.
pub fn main_full_instructions(role: VReaderRole) -> (r: ScreenInstructions)
    ensures
        instructions_text(r) == main_help(role),
{
    let mut nav: Vec<InstructionDetail> = Vec::new();
    nav.push(detail("j/k/\u{2193}/\u{2191}", "move selection"));
    nav.push(detail("n/p", "next/previous category"));
    nav.push(detail("g/G/Home/End", "beginning and end of list"));
    let mut actions: Vec<InstructionDetail> = Vec::new();
    let mut app: Vec<InstructionDetail> = Vec::new();
    match role {
        VReaderRole::Kid => {
            actions.push(detail("Enter", "select category or read entry"));
            actions.push(detail("r", "toggle item read state"));
            actions.push(detail("R", "mark all items as read"));
            app.push(detail("</>", "change feed column width"));
            app.push(detail("Esc/q", "back from entries or quit"));
        },
        _ => {
            actions.push(detail("o", "open link externally"));
            actions.push(detail("L", "add/remove read later"));
            actions.push(detail("Enter", "select category or read entry"));
            actions.push(detail("r", "toggle item read state"));
            actions.push(detail("R", "mark all items as read"));
            app.push(detail("</>", "change feed column width"));
            app.push(detail("t", "open theme picker"));
            app.push(detail("Esc/q", "back from entries or quit"));
        },
    }
    let mut categories: Vec<InstructionCategory> = Vec::new();
    categories.push(category("Navigation", nav));
    categories.push(category("Actions", actions));
    categories.push(category("App", app));
    let r = ScreenInstructions { categories };
    assert(instructions_text(r) =~= main_help(role)) by {
        assert(category_text(r.categories@[0]).1 =~= main_help(role)[0].1);
        assert(category_text(r.categories@[1]).1 =~= main_help(role)[1].1);
        assert(category_text(r.categories@[2]).1 =~= main_help(role)[2].1);
    }
    r
}

pub open spec fn reader_help() -> Seq<CategoryText> {
    seq![
        (
            "Navigation"@,
            seq![
                ("j/k/\u{2193}/\u{2191}"@, "scroll"@),
                ("Ctrl+d/u"@, "scroll half page down/up"@),
                ("g/G"@, "go to beginning or end of file"@),
                ("</>"@, "change reader width"@),
                ("n/p"@, "next/previous entry"@),
            ],
        ),
        ("Actions"@, seq![("o"@, "open externally"@)]),
        ("App"@, seq![("t"@, "open theme picker"@), ("Esc/q"@, "leave"@)]),
    ]
}

/// The reader's help.
pub fn reader_full_instructions() -> (r: ScreenInstructions)
    ensures
        instructions_text(r) == reader_help(),
{
    let mut nav: Vec<InstructionDetail> = Vec::new();
    nav.push(detail("j/k/\u{2193}/\u{2191}", "scroll"));
    nav.push(detail("Ctrl+d/u", "scroll half page down/up"));
    nav.push(detail("g/G", "go to beginning or end of file"));
    nav.push(detail("</>", "change reader width"));
    nav.push(detail("n/p", "next/previous entry"));
    let mut actions: Vec<InstructionDetail> = Vec::new();
    actions.push(detail("o", "open externally"));
    let mut app: Vec<InstructionDetail> = Vec::new();
    app.push(detail("t", "open theme picker"));
    app.push(detail("Esc/q", "leave"));
    let mut categories: Vec<InstructionCategory> = Vec::new();
    categories.push(category("Navigation", nav));
    categories.push(category("Actions", actions));
    categories.push(category("App", app));
    let r = ScreenInstructions { categories };
    assert(instructions_text(r) =~= reader_help()) by {
        assert(category_text(r.categories@[0]).1 =~= reader_help()[0].1);
        assert(category_text(r.categories@[1]).1 =~= reader_help()[1].1);
        assert(category_text(r.categories@[2]).1 =~= reader_help()[2].1);
    }
    r
}

pub open spec fn url_dialog_help() -> Seq<CategoryText> {
    seq![("Navigation"@, seq![("Esc/q"@, "close"@)])]
}

/// The URL dialog's help.
pub fn url_dialog_full_instructions() -> (r: ScreenInstructions)
    ensures
        instructions_text(r) == url_dialog_help(),
{
    let mut nav: Vec<InstructionDetail> = Vec::new();
    nav.push(detail("Esc/q", "close"));
    let mut categories: Vec<InstructionCategory> = Vec::new();
    categories.push(category("Navigation", nav));
    let r = ScreenInstructions { categories };
    assert(instructions_text(r) =~= url_dialog_help()) by {
        assert(category_text(r.categories@[0]).1 =~= url_dialog_help()[0].1);
    }
    r
}

pub open spec fn llm_dialog_help() -> Seq<CategoryText> {
    seq![
        (
            "AI Actions"@,
            seq![
                ("1"@, "Smart Pick \u{2014} suggest new feeds"@),
                ("2"@, "Daily Digest \u{2014} summarize articles"@),
                ("3"@, "Toggle kid-safe filter"@),
            ],
        ),
    ]
}

/// The AI assistant dialog's help.
pub fn llm_dialog_full_instructions() -> (r: ScreenInstructions)
    ensures
        instructions_text(r) == llm_dialog_help(),
{
    let mut actions: Vec<InstructionDetail> = Vec::new();
    actions.push(detail("1", "Smart Pick \u{2014} suggest new feeds"));
    actions.push(detail("2", "Daily Digest \u{2014} summarize articles"));
    actions.push(detail("3", "Toggle kid-safe filter"));
    let mut categories: Vec<InstructionCategory> = Vec::new();
    categories.push(category("AI Actions", actions));
    let r = ScreenInstructions { categories };
    assert(instructions_text(r) =~= llm_dialog_help()) by {
        assert(category_text(r.categories@[0]).1 =~= llm_dialog_help()[0].1);
    }
    r
}

} // verus!
