//! How the difference between two texts is shown.

use vstd::prelude::*;
use vstd::string::*;
use crate::cli::output::{colored, plain, printed, Color, Output, PieceView};
use crate::text::{append_left_aligned, append_repeated, left_aligned, repeated};

verus! {

/// What has become of a line.
#[derive(Debug, Clone, Copy, PartialEq, Eq, Structural)]
pub enum ChangeTag {
    /// It stays.
    Equal,
    /// It is removed.
    Delete,
    /// It is added.
    Insert,
}

/// A line, and what has become of it.
#[derive(Debug, PartialEq, Eq)]
pub struct Change {
    /// What has become of the line.
    pub tag: ChangeTag,
    /// The index of the line in the old text, if it is there.
    pub old_index: Option<usize>,
    /// The line.
    pub text: String,
    /// Whether the line does not end in a newline.
    pub missing_newline: bool,
}

/// The mathematical value of a [`Change`].
pub struct ChangeView {
    /// What has become of the line.
    pub tag: ChangeTag,
    /// The index of the line in the old text, if it is there.
    pub old_index: Option<usize>,
    /// The line.
    pub text: Seq<char>,
    /// Whether the line does not end in a newline.
    pub missing_newline: bool,
}

impl View for Change {
    type V = ChangeView;

    open spec fn view(&self) -> ChangeView {
        ChangeView {
            tag: self.tag,
            old_index: self.old_index,
            text: self.text@,
            missing_newline: self.missing_newline,
        }
    }
}

/// The mathematical values of the changes of an operation.
pub open spec fn changes(op: Vec<Change>) -> Seq<ChangeView> {
    op@.map_values(|change: Change| change@)
}

/// The mathematical values of the changes of a group of operations.
pub open spec fn operations(group: Vec<Vec<Change>>) -> Seq<Seq<ChangeView>> {
    group@.map_values(|op: Vec<Change>| changes(op))
}

/// The mathematical values of groups of operations.
pub open spec fn groups(all: Vec<Vec<Vec<Change>>>) -> Seq<Seq<Seq<ChangeView>>> {
    all@.map_values(|group: Vec<Vec<Change>>| operations(group))
}

/// The difference between the lines of two texts, as groups of operations. There
/// are up to `context` lines that stay around those that do not.
pub uninterp spec fn line_diff(old_text: Seq<char>, new_text: Seq<char>, context: usize) -> Seq<
    Seq<Seq<ChangeView>>,
>;

/// Find the difference between two texts. It is the result of
/// [`similar::TextDiff::from_lines`], its operations grouped by `grouped_ops`,
/// and the lines of each operation by `iter_inline_changes`. The time that the
/// last one takes only decides which parts of a line are emphasized. They are
/// put together again, so the result depends on the texts and the number of
/// lines alone. `grouped_ops` doubles that number, which has to fit.
#[verifier::external_body]
fn text_diff(old_text: &str, new_text: &str, context: usize) -> (r: Vec<Vec<Vec<Change>>>)
    requires
        context <= usize::MAX / 2,
    ensures
        groups(r) == line_diff(old_text@, new_text@, context),
{
    let diff = similar::TextDiff::from_lines(old_text, new_text);
    let change = |c: similar::InlineChange<'_, str>| Change {
        tag: match c.tag() {
            similar::ChangeTag::Equal => ChangeTag::Equal,
            similar::ChangeTag::Delete => ChangeTag::Delete,
            similar::ChangeTag::Insert => ChangeTag::Insert,
        },
        old_index: c.old_index(),
        text: c.iter_strings_lossy().map(|(_, value)| value).collect(),
        missing_newline: c.missing_newline(),
    };
    let op = |op: &similar::DiffOp| diff.iter_inline_changes(op).map(change).collect();
    diff.grouped_ops(context).iter().map(|group| group.iter().map(op).collect()).collect()
}

/// How the number of a line is shown. The first line has the index zero.
pub open spec fn line_number(index: Option<usize>) -> Seq<char> {
    match index {
        None => "    "@,
        Some(i) => left_aligned((i + 1) as nat, 4),
    }
}

/// The sign that is put in front of a line.
pub open spec fn sign(tag: ChangeTag) -> Seq<char> {
    match tag {
        ChangeTag::Delete => "-"@,
        ChangeTag::Insert => "+"@,
        ChangeTag::Equal => " "@,
    }
}

/// The colour of a line.
pub open spec fn line_color(tag: ChangeTag) -> Color {
    match tag {
        ChangeTag::Delete => Color::Red,
        ChangeTag::Insert => Color::Green,
        ChangeTag::Equal => Color::Dim,
    }
}

/// How a line is shown: its number, its sign and the line. A newline follows if
/// the line has none.
pub open spec fn change_shown(change: ChangeView) -> Seq<PieceView> {
    let line = colored(
        line_color(change.tag),
        line_number(change.old_index) + sign(change.tag) + change.text,
    );

    if change.missing_newline {
        seq![line, plain("\n"@)]
    } else {
        seq![line]
    }
}

/// How the first `n` lines of an operation are shown.
pub open spec fn changes_shown(op: Seq<ChangeView>, n: nat) -> Seq<PieceView>
    decreases n,
{
    if n == 0 {
        Seq::empty()
    } else {
        changes_shown(op, (n - 1) as nat) + change_shown(op[n - 1])
    }
}

/// How the first `n` operations of a group are shown.
pub open spec fn operations_shown(group: Seq<Seq<ChangeView>>, n: nat) -> Seq<PieceView>
    decreases n,
{
    if n == 0 {
        Seq::empty()
    } else {
        operations_shown(group, (n - 1) as nat) + changes_shown(group[n - 1], group[n - 1].len())
    }
}

/// What stands between two groups. It is printed, whatever the groups are written
/// to.
pub open spec fn separator() -> PieceView {
    printed(repeated('-', 80) + "\n"@)
}

/// How the first `n` groups are shown, with a line between them.
pub open spec fn groups_shown(all: Seq<Seq<Seq<ChangeView>>>, n: nat) -> Seq<PieceView>
    decreases n,
{
    if n == 0 {
        Seq::empty()
    } else {
        let before = groups_shown(all, (n - 1) as nat);
        let group = operations_shown(all[n - 1], all[n - 1].len());

        if n == 1 {
            group
        } else {
            before.push(separator()) + group
        }
    }
}

/// Show a line.
fn show_change(change: &Change) -> (o: Output)
    ensures
        o@ == change_shown(change@),
{
    let mut text = String::new();
    match change.old_index {
        None => text.append("    "),
        Some(i) => append_left_aligned(i as u128 + 1, 4, &mut text),
    }
    match change.tag {
        ChangeTag::Delete => text.append("-"),
        ChangeTag::Insert => text.append("+"),
        ChangeTag::Equal => text.append(" "),
    }
    text.append(change.text.as_str());
    assert(text@ =~= line_number(change.old_index) + sign(change.tag) + change.text@);

    let color = match change.tag {
        ChangeTag::Delete => Color::Red,
        ChangeTag::Insert => Color::Green,
        ChangeTag::Equal => Color::Dim,
    };

    let mut o = Output::new();
    o.colored(color, text);
    if change.missing_newline {
        o.plain("\n".to_owned());
    }
    assert(o@ =~= change_shown(change@));
    o
}

/// Show the lines of an operation.
fn show_changes(op: &Vec<Change>) -> (o: Output)
    ensures
        o@ == changes_shown(changes(*op), op@.len()),
{
    let mut o = Output::new();
    let mut i: usize = 0;

    while i < op.len()
        invariant
            i <= op@.len(),
            o@ == changes_shown(changes(*op), i as nat),
        decreases op@.len() - i,
    {
        assert(changes(*op)[i as int] == op@[i as int]@);
        o.output(show_change(&op[i]));
        i += 1;
    }

    o
}

/// Show the operations of a group.
fn show_operations(group: &Vec<Vec<Change>>) -> (o: Output)
    ensures
        o@ == operations_shown(operations(*group), group@.len()),
{
    let mut o = Output::new();
    let mut i: usize = 0;

    while i < group.len()
        invariant
            i <= group@.len(),
            o@ == operations_shown(operations(*group), i as nat),
        decreases group@.len() - i,
    {
        assert(operations(*group)[i as int] == changes(group@[i as int]));
        o.output(show_changes(&group[i]));
        i += 1;
    }

    o
}

/// Show a difference, with a line between its groups.
pub fn show(all: &Vec<Vec<Vec<Change>>>) -> (o: Output)
    ensures
        o@ == groups_shown(groups(*all), all@.len()),
{
    let mut o = Output::new();
    let mut i: usize = 0;

    while i < all.len()
        invariant
            i <= all@.len(),
            o@ == groups_shown(groups(*all), i as nat),
        decreases all@.len() - i,
    {
        if i > 0 {
            proof {
                reveal_strlit("-");
            }
            let mut line = String::new();
            append_repeated("-", 80, &mut line);
            line.append("\n");
            assert(line@ =~= repeated('-', 80) + "\n"@);
            o.printed(line);
        }
        assert(groups(*all)[i as int] == operations(all@[i as int]));
        o.output(show_operations(&all[i]));
        i += 1;
        assert(o@ =~= groups_shown(groups(*all), i as nat));
    }

    o
}

/// Show the difference between two texts, with up to three lines of context.
pub fn diff(source: &str, val: &str) -> (o: Output)
    ensures
        o@ == ({
            let all = line_diff(source@, val@, 3);
            groups_shown(all, all.len())
        }),
{
    show(&text_diff(source, val, 3))
}

} // verus!
