//! Laws of what is dumped and reported when scripts are run.

use vstd::prelude::*;
use crate::cli::run::{
    context_dump, frame_shown, frames_shown, function_lines, named_lines, native_function_lines,
    native_type_lines, result_line, shows_result, stack_shown, string_lines, text_lines, unit_head,
    unit_tail, value_lines, DynamicFunction, Flags, NamedText, NativeFunction, StackDump, UnitDump,
};
use crate::runtime::debug::{quoted, shown};
use crate::runtime::Value;
use crate::text::{decimal, zero_padded};
use crate::text_laws::{holds, joined, lemma_holds, lemma_joined, lemma_joined_holds};

verus! {

/// A flag is set after what is implied has been set exactly if it was set, or one
/// that implies it was. Every dump of what is in a unit implies that the unit is
/// dumped, and that implies its instructions.
pub proof fn lemma_propagated(flags: Flags)
    ensures
        ({
            let p = flags.propagated();
            let unit = flags.dump_unit || flags.dump || flags.dump_all || flags.dump_functions
                || flags.dump_native_functions || flags.dump_stack || flags.dump_types
                || flags.dump_constants;
            &&& p.dump == flags.dump
            &&& p.dump_all == flags.dump_all
            &&& p.dump_unit == unit
            &&& p.emit_instructions == (flags.emit_instructions || unit)
            &&& p.dump_stack == (flags.dump_stack || flags.dump || flags.dump_all)
            &&& p.dump_constants == (flags.dump_constants || flags.dump_all)
            &&& p.dump_functions == (flags.dump_functions || flags.dump_all)
            &&& p.dump_types == (flags.dump_types || flags.dump_all)
            &&& p.dump_native_functions == (flags.dump_native_functions || flags.dump_all)
            &&& p.dump_native_types == (flags.dump_native_types || flags.dump_all)
            &&& p.trace == (flags.trace || flags.trace_limit is Some)
            &&& p.dump_return == (flags.dump_return || flags.dump || flags.dump_all || flags.trace
                || flags.trace_limit is Some)
        }),
{
}

/// Once what is implied has been set, every flag that asks for something in a
/// unit comes with the dump of the unit, and that one with the instructions.
pub proof fn lemma_propagated_implies(flags: Flags)
    ensures
        ({
            let p = flags.propagated();
            &&& p.dump ==> p.dump_unit && p.dump_stack && p.dump_return
            &&& p.dump_all ==> p.dump_unit && p.dump_stack && p.dump_return && p.dump_constants
                && p.dump_functions && p.dump_types && p.dump_native_functions
                && p.dump_native_types
            &&& p.dump_functions ==> p.dump_unit
            &&& p.dump_native_functions ==> p.dump_unit
            &&& p.dump_stack ==> p.dump_unit
            &&& p.dump_types ==> p.dump_unit
            &&& p.dump_constants ==> p.dump_unit
            &&& p.dump_unit ==> p.emit_instructions
            &&& p.trace_limit is Some ==> p.trace
            &&& p.trace ==> p.dump_return
        }),
{
}

/// The line of a function: its hash, and its signature or else its kind.
pub open spec fn function_text(f: DynamicFunction) -> Seq<char> {
    f.hash@ + " = "@ + (if f.signature is Some {
        f.signature->0@
    } else {
        f.kind@
    }) + "\n"@
}

/// The line of something with a name.
pub open spec fn named_text(x: NamedText) -> Seq<char> {
    x.name@ + " = "@ + x.text@ + "\n"@
}

/// The line of a native function: its number, its name and its hash. One without
/// a name has no line.
pub open spec fn native_function_text(i: int, f: NativeFunction) -> Seq<char> {
    if f.item is Some {
        zero_padded(i as nat, 4) + " = "@ + f.item->0@ + " ("@ + f.hash@ + ")\n"@
    } else {
        Seq::empty()
    }
}

/// The line of a native type: its number, its name and how it is shown.
pub open spec fn native_type_text(i: int, x: NamedText) -> Seq<char> {
    zero_padded(i as nat, 4) + " = "@ + x.name@ + " ("@ + x.text@ + ")\n"@
}

/// The lines of functions are the line of each function, in order.
pub proof fn lemma_function_lines(functions: Seq<DynamicFunction>, n: nat)
    ensures
        function_lines(functions, n) == joined(n, |i: int| function_text(functions[i])),
    decreases n,
{
    let part = |i: int| function_text(functions[i]);
    if n == 0 {
        lemma_joined(0, part);
    } else {
        lemma_function_lines(functions, (n - 1) as nat);
        lemma_joined((n - 1) as nat, part);
    }
}

/// The lines of strings are the number of each string and the string in quotes,
/// in order.
pub proof fn lemma_string_lines(strings: Seq<String>, n: nat)
    ensures
        string_lines(strings, n) == joined(
            n,
            |i: int| decimal(i as nat) + " = "@ + quoted(strings[i]@) + "\n"@,
        ),
    decreases n,
{
    let part = |i: int| decimal(i as nat) + " = "@ + quoted(strings[i]@) + "\n"@;
    if n == 0 {
        lemma_joined(0, part);
    } else {
        lemma_string_lines(strings, (n - 1) as nat);
        lemma_joined((n - 1) as nat, part);
    }
}

/// The lines of texts are the number of each text and the text, in order.
pub proof fn lemma_text_lines(texts: Seq<String>, n: nat)
    ensures
        text_lines(texts, n) == joined(
            n,
            |i: int| decimal(i as nat) + " = "@ + texts[i]@ + "\n"@,
        ),
    decreases n,
{
    let part = |i: int| decimal(i as nat) + " = "@ + texts[i]@ + "\n"@;
    if n == 0 {
        lemma_joined(0, part);
    } else {
        lemma_text_lines(texts, (n - 1) as nat);
        lemma_joined((n - 1) as nat, part);
    }
}

/// The lines of things with a name are the line of each, in order.
pub proof fn lemma_named_lines(all: Seq<NamedText>, n: nat)
    ensures
        named_lines(all, n) == joined(n, |i: int| named_text(all[i])),
    decreases n,
{
    let part = |i: int| named_text(all[i]);
    if n == 0 {
        lemma_joined(0, part);
    } else {
        lemma_named_lines(all, (n - 1) as nat);
        lemma_joined((n - 1) as nat, part);
    }
}

/// The lines of native functions are the line of each function, in order.
proof fn lemma_native_function_lines(functions: Seq<NativeFunction>, n: nat)
    ensures
        native_function_lines(functions, n) == joined(
            n,
            |i: int| native_function_text(i, functions[i]),
        ),
    decreases n,
{
    let part = |i: int| native_function_text(i, functions[i]);
    if n == 0 {
        lemma_joined(0, part);
    } else {
        lemma_native_function_lines(functions, (n - 1) as nat);
        lemma_joined((n - 1) as nat, part);
        assert(native_function_lines(functions, n) =~= native_function_lines(
            functions,
            (n - 1) as nat,
        ) + part(n - 1));
    }
}

/// The lines of native types are the line of each type, in order.
proof fn lemma_native_type_lines(types: Seq<NamedText>, n: nat)
    ensures
        native_type_lines(types, n) == joined(n, |i: int| native_type_text(i, types[i])),
    decreases n,
{
    let part = |i: int| native_type_text(i, types[i]);
    if n == 0 {
        lemma_joined(0, part);
    } else {
        lemma_native_type_lines(types, (n - 1) as nat);
        lemma_joined((n - 1) as nat, part);
        assert(native_type_lines(types, n) =~= native_type_lines(types, (n - 1) as nat) + part(
            n - 1,
        ));
    }
}

/// The dump of the context is the native functions with a line for each that has
/// a name, and then the native types with a line for each, where they are asked
/// for.
pub proof fn lemma_context_dump(
    flags: Flags,
    functions: Seq<NativeFunction>,
    types: Seq<NamedText>,
)
    ensures
        context_dump(flags, functions, types) == (if flags.dump_native_functions {
            "# functions\n"@ + joined(
                functions.len(),
                |i: int| native_function_text(i, functions[i]),
            )
        } else {
            Seq::empty()
        }) + (if flags.dump_native_types {
            "# types\n"@ + joined(types.len(), |i: int| native_type_text(i, types[i]))
        } else {
            Seq::empty()
        }),
{
    lemma_native_function_lines(functions, functions.len());
    lemma_native_type_lines(types, types.len());
}

/// The dump of a unit starts with its size, and goes on with the title of the
/// instructions if they are asked for. Nothing is dumped of a unit that is not
/// asked for.
pub proof fn lemma_unit_head(flags: Flags, bytes: usize)
    ensures
        !flags.dump_unit ==> unit_head(flags, bytes) == Seq::<char>::empty(),
        flags.dump_unit && flags.emit_instructions ==> unit_head(flags, bytes) == "Unit size: "@
            + decimal(bytes as nat) + " bytes\n"@ + "# instructions\n"@,
        flags.dump_unit && !flags.emit_instructions ==> unit_head(flags, bytes) == "Unit size: "@
            + decimal(bytes as nat) + " bytes\n"@,
{
}

/// A title and the lines behind it, unless there are none.
pub open spec fn titled(title: Seq<char>, n: nat, part: spec_fn(int) -> Seq<char>) -> Seq<char> {
    if n == 0 {
        Seq::empty()
    } else {
        title + joined(n, part)
    }
}

/// What is dumped of a unit behind its instructions is the title and the lines of
/// everything that it has, functions and constants only if they are asked for.
pub proof fn lemma_unit_tail(flags: Flags, unit: UnitDump)
    ensures
        !flags.dump_unit ==> unit_tail(flags, unit) == Seq::<char>::empty(),
        flags.dump_unit ==> unit_tail(flags, unit) == (if flags.dump_functions {
            titled(
                "# dynamic functions\n"@,
                unit.functions@.len(),
                |i: int| function_text(unit.functions@[i]),
            )
        } else {
            Seq::empty()
        }) + titled(
            "# strings\n"@,
            unit.strings@.len(),
            |i: int| decimal(i as nat) + " = "@ + quoted(unit.strings@[i]@) + "\n"@,
        ) + titled(
            "# bytes\n"@,
            unit.bytes@.len(),
            |i: int| decimal(i as nat) + " = "@ + unit.bytes@[i]@ + "\n"@,
        ) + titled(
            "# object keys\n"@,
            unit.keys@.len(),
            |i: int| named_text(unit.keys@[i]),
        ) + titled(
            "# drop sets\n"@,
            unit.drop_sets@.len(),
            |i: int| decimal(i as nat) + " = "@ + unit.drop_sets@[i]@ + "\n"@,
        ) + (if flags.dump_constants {
            titled(
                "# constants\n"@,
                unit.constants@.len(),
                |i: int| named_text(unit.constants@[i]),
            )
        } else {
            Seq::empty()
        }),
{
    lemma_function_lines(unit.functions@, unit.functions@.len());
    lemma_string_lines(unit.strings@, unit.strings@.len());
    lemma_text_lines(unit.bytes@, unit.bytes@.len());
    lemma_named_lines(unit.keys@, unit.keys@.len());
    lemma_text_lines(unit.drop_sets@, unit.drop_sets@.len());
    lemma_named_lines(unit.constants@, unit.constants@.len());
}

/// If functions are asked for, by themselves or with everything else, then the
/// dump of a unit holds the line of every function.
pub proof fn lemma_functions_dumped(flags: Flags, unit: UnitDump, i: int)
    requires
        flags.dump_functions || flags.dump_all,
        0 <= i < unit.functions@.len(),
    ensures
        holds(unit_tail(flags.propagated(), unit), function_text(unit.functions@[i])),
{
    let p = flags.propagated();
    let n = unit.functions@.len();
    let part = |i: int| function_text(unit.functions@[i]);
    let title = "# dynamic functions\n"@;
    let tail = unit_tail(p, unit);
    lemma_function_lines(unit.functions@, n);
    lemma_joined_holds(n, part, i);
    lemma_holds(title, joined(n, part), Seq::empty(), part(i));
    let first = title + joined(n, part);
    assert(title + joined(n, part) + Seq::<char>::empty() =~= first);
    assert(tail.take(first.len() as int) =~= first);
    lemma_holds(Seq::empty(), first, tail.skip(first.len() as int), part(i));
    assert(Seq::<char>::empty() + first + tail.skip(first.len() as int) =~= tail);
}

/// If constants are asked for, by themselves or with everything else, then the
/// dump of a unit holds the line of every constant.
pub proof fn lemma_constants_dumped(flags: Flags, unit: UnitDump, i: int)
    requires
        flags.dump_constants || flags.dump_all,
        0 <= i < unit.constants@.len(),
    ensures
        holds(unit_tail(flags.propagated(), unit), named_text(unit.constants@[i])),
{
    let p = flags.propagated();
    let n = unit.constants@.len();
    let part = |i: int| named_text(unit.constants@[i]);
    let title = "# constants\n"@;
    let tail = unit_tail(p, unit);
    lemma_named_lines(unit.constants@, n);
    lemma_joined_holds(n, part, i);
    lemma_holds(title, joined(n, part), Seq::empty(), part(i));
    let last = title + joined(n, part);
    assert(title + joined(n, part) + Seq::<char>::empty() =~= last);
    let front = tail.take(tail.len() - last.len());
    assert(tail.skip(tail.len() - last.len()) =~= last);
    lemma_holds(front, last, Seq::empty(), part(i));
    assert(front + last + Seq::<char>::empty() =~= tail);
}

/// The result of a script is shown if anything asks for it, and a trace or a dump
/// does.
pub proof fn lemma_result_shown(flags: Flags, verbose: bool)
    ensures
        shows_result(flags.propagated(), verbose) <==> verbose || flags.time || flags.dump_return
            || flags.dump || flags.dump_all || flags.trace || flags.trace_limit is Some,
{
}

/// The line of a result has the value, or the error, and then the time. A value
/// is never shown as an error is.
pub proof fn lemma_result_line(value: Value, error: Seq<char>, duration: Seq<char>)
    ensures
        result_line(Ok(value), duration) == "== "@ + shown(value) + " ("@ + duration + ")\n"@,
        result_line(Err(error), duration) == "== ! ("@ + error + ") ("@ + duration + ")\n"@,
{
}

/// The line of a value on the stack: where its frame starts, its index in the
/// frame and how it is shown.
pub open spec fn value_text(values: Seq<Value>, start: int, i: int) -> Seq<char> {
    "    "@ + decimal(start as nat) + "+"@ + decimal(i as nat) + " = "@ + shown(values[start + i])
        + "\n"@
}

/// The lines of the values of a frame are the line of each value, in order.
pub proof fn lemma_value_lines(values: Seq<Value>, start: int, n: nat)
    ensures
        value_lines(values, start, n) == joined(n, |i: int| value_text(values, start, i)),
    decreases n,
{
    let part = |i: int| value_text(values, start, i);
    if n == 0 {
        lemma_joined(0, part);
    } else {
        lemma_value_lines(values, start, (n - 1) as nat);
        lemma_joined((n - 1) as nat, part);
        assert(value_lines(values, start, n) =~= value_lines(values, start, (n - 1) as nat) + part(
            n - 1,
        ));
    }
}

/// How a frame is shown: its number and its start, and then its values. A frame
/// without values is shown as empty.
pub open spec fn frame_text(values: Seq<Value>, index: int, start: int, end: int) -> Seq<char> {
    "  frame #"@ + decimal(index as nat) + " (+"@ + decimal(start as nat) + ")\n"@ + (if start
        == end {
        "    *empty*\n"@
    } else {
        joined((end - start) as nat, |i: int| value_text(values, start, i))
    })
}

/// A frame is shown by its number, its start and its values.
pub proof fn lemma_frame_shown(values: Seq<Value>, index: int, start: int, end: int)
    requires
        0 <= start <= end,
    ensures
        frame_shown(values, index, start, end) == frame_text(values, index, start, end),
{
    lemma_value_lines(values, start, (end - start) as nat);
    assert(frame_shown(values, index, start, end) =~= frame_text(values, index, start, end));
}

/// The frames of a stack are shown one behind the other. Each one goes up to
/// where the next one starts.
pub proof fn lemma_frames_shown(stack: StackDump, n: nat)
    requires
        stack.wf(),
        n <= stack.frames@.len(),
    ensures
        frames_shown(stack, n) == joined(
            n,
            |i: int|
                frame_text(
                    stack.values@,
                    i,
                    stack.frames@[i] as int,
                    if i + 1 < stack.frames@.len() {
                        stack.frames@[i + 1] as int
                    } else {
                        stack.top as int
                    },
                ),
        ),
    decreases n,
{
    let part = |i: int|
        frame_text(
            stack.values@,
            i,
            stack.frames@[i] as int,
            if i + 1 < stack.frames@.len() {
                stack.frames@[i + 1] as int
            } else {
                stack.top as int
            },
        );
    if n == 0 {
        lemma_joined(0, part);
    } else {
        lemma_frames_shown(stack, (n - 1) as nat);
        lemma_joined((n - 1) as nat, part);
        assert(stack.frames@[n - 1] <= stack.end(n - 1));
        lemma_frame_shown(
            stack.values@,
            n - 1,
            stack.frames@[n - 1] as int,
            stack.end(n - 1) as int,
        );
    }
}

/// The dump of a stack ends in the frame that is running, which has all values
/// from its start on.
pub proof fn lemma_stack_shown(stack: StackDump)
    requires
        stack.wf(),
    ensures
        stack_shown(stack) == "# call frames after halting\n"@ + joined(
            stack.frames@.len(),
            |i: int|
                frame_text(
                    stack.values@,
                    i,
                    stack.frames@[i] as int,
                    if i + 1 < stack.frames@.len() {
                        stack.frames@[i + 1] as int
                    } else {
                        stack.top as int
                    },
                ),
        ) + frame_text(
            stack.values@,
            stack.frames@.len() as int,
            stack.top as int,
            stack.values@.len() as int,
        ),
{
    lemma_frames_shown(stack, stack.frames@.len());
    lemma_frame_shown(
        stack.values@,
        stack.frames@.len() as int,
        stack.top as int,
        stack.values@.len() as int,
    );
}

/// Every value from the start of the frame that is running on is shown in the
/// dump of a stack.
pub proof fn lemma_running_values_shown(stack: StackDump, i: int)
    requires
        stack.wf(),
        0 <= i < stack.values@.len() - stack.top,
    ensures
        holds(stack_shown(stack), value_text(stack.values@, stack.top as int, i)),
{
    let n = (stack.values@.len() - stack.top) as nat;
    let part = |i: int| value_text(stack.values@, stack.top as int, i);
    let all = stack_shown(stack);
    let lines = joined(n, part);
    lemma_stack_shown(stack);
    lemma_joined_holds(n, part, i);
    let front = all.take(all.len() - lines.len());
    assert(all.skip(all.len() - lines.len()) =~= lines);
    lemma_holds(front, lines, Seq::empty(), part(i));
    assert(front + lines + Seq::<char>::empty() =~= all);
}

} // verus!
