//! Laws of what is shown of traces and of differences.

use vstd::prelude::*;
use crate::cli::diff::{
    change_shown, changes_shown, groups_shown, operations_shown, ChangeTag, ChangeView,
};
use crate::cli::output::{Color, PieceView, Target};
use crate::cli::run_laws::{lemma_value_lines, value_text};
use crate::cli::trace::{label_lines, Snapshot, Step, Trace, TraceError, VmOutcome};
use crate::runtime::debug::shown;
use crate::runtime::{Value, VmError};
use crate::text::{decimal, left_aligned, zero_padded};
use crate::text_laws::{joined, lemma_joined};

verus! {

/// The lines of labels are the line of each label, in order.
proof fn lemma_label_lines(labels: Seq<String>, n: nat)
    ensures
        label_lines(labels, n) == joined(n, |i: int| labels[i]@ + ":\n"@),
    decreases n,
{
    let part = |i: int| labels[i]@ + ":\n"@;
    if n == 0 {
        lemma_joined(0, part);
    } else {
        lemma_label_lines(labels, (n - 1) as nat);
        lemma_joined((n - 1) as nat, part);
        assert(label_lines(labels, n) =~= label_lines(labels, (n - 1) as nat) + part(n - 1));
    }
}

/// What is written before an instruction: the value that was yielded, the function
/// that starts, the labels, and if the stack is shown the frame that was pushed or
/// popped.
pub open spec fn head_text(trace: Trace, s: Snapshot) -> Seq<char> {
    (if trace.yielded is Some {
        "yield: "@ + shown(trace.yielded->0) + "\n"@
    } else {
        Seq::empty()
    }) + (match s.function {
        Some((hash, signature)) => "fn "@ + signature@ + " ("@ + hash@ + "):\n"@,
        None => Seq::empty(),
    }) + joined(s.labels@.len(), |i: int| s.labels@[i]@ + ":\n"@) + (if trace.dump_stack
        && trace.frames != s.frames {
        "  "@ + (if trace.frames < s.frames {
            "push"@
        } else {
            "pop"@
        }) + " frame "@ + decimal(s.frames as nat) + " (+"@ + decimal(s.top as nat) + ")"@ + (
        if s.frame is Some {
            " "@ + s.frame->0@ + "\n"@
        } else {
            " *root*\n"@
        })
    } else {
        Seq::empty()
    })
}

/// What is written of an instruction: its number, the instruction, its comment, the
/// line of the source, unless that is not asked for, and if the stack is shown its
/// values.
pub open spec fn tail_text(trace: Trace, s: Snapshot, instruction: Option<String>) -> Seq<char> {
    "  "@ + zero_padded(s.ip as nat, 4) + " = "@ + (if instruction is Some {
        instruction->0@
    } else {
        "*out of bounds*"@
    }) + (if s.comment is Some {
        " // "@ + s.comment->0@
    } else {
        Seq::empty()
    }) + "\n"@ + (if s.source_line is Some && !trace.without_source {
        "  "@ + s.source_line->0@ + "\n"@
    } else {
        Seq::empty()
    }) + (if trace.dump_stack {
        joined(
            (s.values@.len() - s.top) as nat,
            |i: int| value_text(s.values@, s.top as int, i),
        )
    } else {
        Seq::empty()
    })
}

/// What is written between two instructions. If there is no instruction because
/// the script has failed, then only what comes before it is.
pub proof fn lemma_written(trace: Trace, s: Snapshot)
    ensures
        s.instruction is Err ==> trace.written(s) == head_text(trace, s),
        s.instruction is Ok ==> trace.written(s) == head_text(trace, s) + tail_text(
            trace,
            s,
            s.instruction->Ok_0,
        ),
{
    lemma_label_lines(s.labels@, s.labels@.len());
    lemma_value_lines(s.values@, s.top as int, (s.values@.len() - s.top) as nat);
    assert(trace.head(s) =~= head_text(trace, s));
    if s.instruction is Ok {
        assert(trace.tail(s, s.instruction->Ok_0) =~= tail_text(trace, s, s.instruction->Ok_0));
    }
}

/// Writing what is between two instructions shows what was yielded once, and
/// remembers the frames that have been shown. It ends the trace exactly if the
/// script is complete or has failed.
pub proof fn lemma_stepped(trace: Trace, s: Snapshot)
    ensures
        ({
            let after = trace.stepped(s);
            &&& after.yielded is None
            &&& after.result == trace.result
            &&& after.limit == trace.limit
            &&& after.dump_stack == trace.dump_stack
            &&& after.without_source == trace.without_source
            &&& trace.dump_stack ==> after.frames == s.frames
            &&& !trace.dump_stack ==> after.frames == trace.frames
        }),
        s.instruction matches Err(e) ==> trace.next_step(s) == Err::<Step, TraceError>(
            TraceError::VmError(e),
        ),
        s.instruction is Ok && trace.result is Some ==> trace.next_step(s) == Ok::<
            Step,
            TraceError,
        >(Step::Done(trace.result->0)),
        s.instruction is Ok && trace.result is None ==> trace.next_step(s) == Ok::<
            Step,
            TraceError,
        >(Step::Resume),
{
}

/// Running an instruction uses up one of those that are to be traced. The trace has
/// a result once the script is complete, and something to show if it has yielded.
pub proof fn lemma_advanced(trace: Trace, outcome: VmOutcome)
    requires
        trace.limit > 0,
    ensures
        ({
            let after = trace.advanced(outcome);
            &&& after.limit == trace.limit - 1
            &&& after.frames == trace.frames
            &&& after.dump_stack == trace.dump_stack
            &&& after.without_source == trace.without_source
            &&& outcome matches VmOutcome::Complete(value) ==> after.result == Some(value)
                && after.yielded == trace.yielded
            &&& outcome matches VmOutcome::Yielded(value) ==> after.yielded == Some(value)
                && after.result == trace.result
            &&& outcome is Limited ==> after.result == trace.result && after.yielded
                == trace.yielded
        }),
{
}

/// A value that a script yields is shown before the next instruction.
pub proof fn lemma_yield_shown(trace: Trace, before: Snapshot, value: Value, s: Snapshot)
    requires
        trace.limit > 0,
    ensures
        ({
            let next = trace.stepped(before).advanced(VmOutcome::Yielded(value));
            let line = "yield: "@ + shown(value) + "\n"@;
            &&& next.written(s).len() >= line.len()
            &&& next.written(s).take(line.len() as int) == line
        }),
{
    let next = trace.stepped(before).advanced(VmOutcome::Yielded(value));
    let line = "yield: "@ + shown(value) + "\n"@;
    lemma_written(next, s);
    assert(next.written(s).take(line.len() as int) =~= line);
}

/// A line of a difference: a number and a sign in front of the text, in the colour
/// of what has become of it. Lines are counted from one. A line that has been added
/// has no number of its own in the old text.
pub open spec fn change_pieces(change: ChangeView) -> Seq<PieceView> {
    let number = if change.old_index is Some {
        left_aligned((change.old_index->0 + 1) as nat, 4)
    } else {
        seq![' ', ' ', ' ', ' ']
    };
    let (sign, color) = match change.tag {
        ChangeTag::Delete => ('-', Color::Red),
        ChangeTag::Insert => ('+', Color::Green),
        ChangeTag::Equal => (' ', Color::Dim),
    };
    let line = PieceView {
        target: Target::Stream,
        color: Some(color),
        text: number + seq![sign] + change.text,
    };
    let end = PieceView { target: Target::Stream, color: None, text: seq!['\n'] };

    if change.missing_newline {
        seq![line, end]
    } else {
        seq![line]
    }
}

/// A line of a difference is shown with its number and its sign.
pub proof fn lemma_change_shown(change: ChangeView)
    ensures
        change_shown(change) == change_pieces(change),
{
    reveal_strlit("    ");
    reveal_strlit("-");
    reveal_strlit("+");
    reveal_strlit(" ");
    reveal_strlit("\n");
    let a = change_shown(change);
    let b = change_pieces(change);
    assert(a[0].text =~= b[0].text);
    assert(a =~~= b);
}

/// The lines of an operation are all shown, in order.
proof fn lemma_changes_shown(op: Seq<ChangeView>, n: nat)
    ensures
        changes_shown(op, n) == joined(n, |i: int| change_pieces(op[i])),
    decreases n,
{
    let part = |i: int| change_pieces(op[i]);
    if n == 0 {
        lemma_joined(0, part);
    } else {
        lemma_changes_shown(op, (n - 1) as nat);
        lemma_joined((n - 1) as nat, part);
        lemma_change_shown(op[n - 1]);
    }
}

/// How the lines of an operation are shown.
pub open spec fn operation_pieces(op: Seq<ChangeView>) -> Seq<PieceView> {
    joined(op.len(), |i: int| change_pieces(op[i]))
}

/// The operations of a group are all shown, in order.
proof fn lemma_operations_shown(group: Seq<Seq<ChangeView>>, n: nat)
    ensures
        operations_shown(group, n) == joined(n, |i: int| operation_pieces(group[i])),
    decreases n,
{
    let part = |i: int| operation_pieces(group[i]);
    if n == 0 {
        lemma_joined(0, part);
    } else {
        lemma_operations_shown(group, (n - 1) as nat);
        lemma_joined((n - 1) as nat, part);
        lemma_changes_shown(group[n - 1], group[n - 1].len());
    }
}

/// How the operations of a group are shown.
pub open spec fn group_pieces(group: Seq<Seq<ChangeView>>) -> Seq<PieceView> {
    joined(group.len(), |i: int| operation_pieces(group[i]))
}

/// The line that is printed between two groups: eighty dashes, to the standard
/// output of the process.
pub open spec fn dashes() -> PieceView {
    PieceView {
        target: Target::Process,
        color: None,
        text: Seq::new(80, |i: int| '-') + seq!['\n'],
    }
}

/// A difference shows every line of every operation of every group, in order, with a
/// line of dashes between two groups.
pub proof fn lemma_groups_shown(all: Seq<Seq<Seq<ChangeView>>>, n: nat)
    ensures
        groups_shown(all, n) == joined(
            n,
            |i: int|
                if i == 0 {
                    group_pieces(all[i])
                } else {
                    seq![dashes()] + group_pieces(all[i])
                },
        ),
    decreases n,
{
    let part = |i: int|
        if i == 0 {
            group_pieces(all[i])
        } else {
            seq![dashes()] + group_pieces(all[i])
        };
    if n == 0 {
        lemma_joined(0, part);
    } else {
        let m = (n - 1) as nat;
        lemma_groups_shown(all, m);
        lemma_joined(m, part);
        lemma_operations_shown(all[n - 1], all[n - 1].len());
        if n == 1 {
            lemma_joined(0, part);
            assert(groups_shown(all, n) =~= joined(n, part));
        } else {
            reveal_strlit("\n");
            assert(crate::cli::diff::separator().text =~= dashes().text);
            assert(groups_shown(all, n) =~= joined(m, part) + part(m as int));
        }
    }
}

/// The error of a script ends a trace of it as that error.
pub proof fn lemma_failed(trace: Trace, s: Snapshot, e: VmError)
    requires
        s.instruction == Err::<Option<String>, VmError>(e),
    ensures
        trace.next_step(s) == Err::<Step, TraceError>(TraceError::VmError(e)),
        trace.written(s) == head_text(trace, s),
{
    lemma_written(trace, s);
}

} // verus!
