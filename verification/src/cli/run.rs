//! Running of scripts.

use vstd::prelude::*;
use vstd::string::*;
use crate::cli::output::{AssetKind, ExitCode};
use crate::cli::paths::Path;
use crate::runtime::debug::{append_quoted, quoted, shown};
use crate::runtime::Value;
use crate::text::{append_decimal, append_zero_padded, decimal, zero_padded};

verus! {

/// The flags of the command.
#[derive(Debug)]
pub struct Flags {
    /// Provide detailed tracing for each instruction executed.
    pub trace: bool,
    /// When tracing is enabled, do not show the source.
    pub without_source: bool,
    /// Time how long the script took to execute.
    pub time: bool,
    /// Perform a default dump.
    pub dump: bool,
    /// Dump return value.
    pub dump_return: bool,
    /// Dump everything that is available, this is very verbose.
    pub dump_all: bool,
    /// Dump default information about unit.
    pub dump_unit: bool,
    /// Dump constants from the unit.
    pub dump_constants: bool,
    /// Dump unit instructions.
    pub emit_instructions: bool,
    /// Dump the state of the stack after completion. If it is traced, dump it
    /// after each instruction.
    pub dump_stack: bool,
    /// Dump dynamic functions.
    pub dump_functions: bool,
    /// Dump dynamic types.
    pub dump_types: bool,
    /// Dump native functions.
    pub dump_native_functions: bool,
    /// Dump native types.
    pub dump_native_types: bool,
    /// When tracing, limit the number of instructions to run. This implies
    /// tracing.
    pub trace_limit: Option<usize>,
    /// Explicit paths to run.
    pub run_path: Vec<Path>,
}

impl Flags {
    /// The flags with everything set that is implied by another flag.
    pub open spec fn propagated(self) -> Flags {
        let dump = self.dump || self.dump_all;
        let dump_stack = self.dump_stack || dump;
        let dump_constants = self.dump_constants || self.dump_all;
        let dump_functions = self.dump_functions || self.dump_all;
        let dump_types = self.dump_types || self.dump_all;
        let dump_native_functions = self.dump_native_functions || self.dump_all;
        let dump_unit = self.dump_unit || dump || dump_functions || dump_native_functions
            || dump_stack || dump_types || dump_constants;
        let trace = self.trace || self.trace_limit is Some;

        Flags {
            trace,
            dump_return: self.dump_return || dump || trace,
            dump_unit,
            dump_constants,
            emit_instructions: self.emit_instructions || dump_unit,
            dump_stack,
            dump_functions,
            dump_types,
            dump_native_functions,
            dump_native_types: self.dump_native_types || self.dump_all,
            ..self
        }
    }

    /// Test if the command works on what is of a kind in the workspace.
    pub fn is_workspace(&self, kind: AssetKind) -> (r: bool)
        ensures
            r == (kind == AssetKind::Bin),
    {
        matches!(kind, AssetKind::Bin)
    }

    /// Set everything that is implied by another flag.
    pub fn propagate(&mut self)
        ensures
            *final(self) == old(self).propagated(),
    {
        if self.dump || self.dump_all {
            self.dump_unit = true;
            self.dump_stack = true;
            self.dump_return = true;
        }

        if self.dump_all {
            self.dump_constants = true;
            self.dump_functions = true;
            self.dump_types = true;
            self.dump_native_functions = true;
            self.dump_native_types = true;
        }

        if self.dump_functions || self.dump_native_functions || self.dump_stack || self.dump_types
            || self.dump_constants {
            self.dump_unit = true;
        }

        if self.dump_unit {
            self.emit_instructions = true;
        }

        if self.trace_limit.is_some() {
            self.trace = true;
        }

        if self.trace {
            self.dump_return = true;
        }
    }

    /// Extra paths to run.
    pub fn paths(&self) -> (paths: &Vec<Path>)
        ensures
            *paths == self.run_path,
    {
        &self.run_path
    }

    /// The number of instructions to trace at most.
    pub fn limit(&self) -> (n: usize)
        ensures
            n == (match self.trace_limit {
                Some(limit) => limit,
                None => usize::MAX,
            }),
    {
        match self.trace_limit {
            Some(limit) => limit,
            None => usize::MAX,
        }
    }
}

/// Setting what is implied a second time changes nothing.
pub proof fn lemma_propagated_twice(flags: Flags)
    ensures
        flags.propagated().propagated() == flags.propagated(),
{
}

/// Setting what is implied switches no flag off.
pub proof fn lemma_propagated_keeps(flags: Flags)
    ensures
        flags.trace ==> flags.propagated().trace,
        flags.dump_return ==> flags.propagated().dump_return,
        flags.dump_unit ==> flags.propagated().dump_unit,
        flags.dump_constants ==> flags.propagated().dump_constants,
        flags.emit_instructions ==> flags.propagated().emit_instructions,
        flags.dump_stack ==> flags.propagated().dump_stack,
        flags.dump_functions ==> flags.propagated().dump_functions,
        flags.dump_types ==> flags.propagated().dump_types,
        flags.dump_native_functions ==> flags.propagated().dump_native_functions,
        flags.dump_native_types ==> flags.propagated().dump_native_types,
        flags.propagated().without_source == flags.without_source,
        flags.propagated().time == flags.time,
        flags.propagated().trace_limit == flags.trace_limit,
        flags.propagated().run_path == flags.run_path,
{
}

/// A native function.
#[derive(Debug)]
pub struct NativeFunction {
    /// The name of the function, if it has one.
    pub item: Option<String>,
    /// The hash of the function.
    pub hash: String,
}

/// A function of a unit.
#[derive(Debug)]
pub struct DynamicFunction {
    /// The hash of the function.
    pub hash: String,
    /// The signature of the function, if it is known.
    pub signature: Option<String>,
    /// What kind of function it is.
    pub kind: String,
}

/// Something with a name.
#[derive(Debug)]
pub struct NamedText {
    /// The name.
    pub name: String,
    /// How it is shown.
    pub text: String,
}

/// What is in a unit.
#[derive(Debug)]
pub struct UnitDump {
    /// The functions.
    pub functions: Vec<DynamicFunction>,
    /// The static strings.
    pub strings: Vec<String>,
    /// How the static bytes are shown.
    pub bytes: Vec<String>,
    /// How the keys of static objects are shown.
    pub keys: Vec<NamedText>,
    /// How the static drop sets are shown.
    pub drop_sets: Vec<String>,
    /// How the constants are shown.
    pub constants: Vec<NamedText>,
}

/// The lines of the first `n` native functions. One without a name has none.
pub open spec fn native_function_lines(functions: Seq<NativeFunction>, n: nat) -> Seq<char>
    decreases n,
{
    if n == 0 {
        Seq::empty()
    } else {
        let before = native_function_lines(functions, (n - 1) as nat);
        match functions[n - 1].item {
            Some(item) => before + zero_padded((n - 1) as nat, 4) + " = "@ + item@ + " ("@
                + functions[n - 1].hash@ + ")\n"@,
            None => before,
        }
    }
}

/// The lines of the first `n` native types.
pub open spec fn native_type_lines(types: Seq<NamedText>, n: nat) -> Seq<char>
    decreases n,
{
    if n == 0 {
        Seq::empty()
    } else {
        native_type_lines(types, (n - 1) as nat) + zero_padded((n - 1) as nat, 4) + " = "@ + types[n
            - 1].name@ + " ("@ + types[n - 1].text@ + ")\n"@
    }
}

/// A line with a name and what it is of.
pub open spec fn equation(name: Seq<char>, text: Seq<char>) -> Seq<char> {
    name + " = "@ + text + "\n"@
}

/// The lines of the first `n` functions.
pub open spec fn function_lines(functions: Seq<DynamicFunction>, n: nat) -> Seq<char>
    decreases n,
{
    if n == 0 {
        Seq::empty()
    } else {
        let f = functions[n - 1];
        function_lines(functions, (n - 1) as nat) + equation(
            f.hash@,
            match f.signature {
                Some(signature) => signature@,
                None => f.kind@,
            },
        )
    }
}

/// The lines of the first `n` strings.
pub open spec fn string_lines(strings: Seq<String>, n: nat) -> Seq<char>
    decreases n,
{
    if n == 0 {
        Seq::empty()
    } else {
        string_lines(strings, (n - 1) as nat) + equation(
            decimal((n - 1) as nat),
            quoted(strings[n - 1]@),
        )
    }
}

/// The lines of the first `n` texts.
pub open spec fn text_lines(texts: Seq<String>, n: nat) -> Seq<char>
    decreases n,
{
    if n == 0 {
        Seq::empty()
    } else {
        text_lines(texts, (n - 1) as nat) + equation(decimal((n - 1) as nat), texts[n - 1]@)
    }
}

/// The lines of the first `n` things with a name.
pub open spec fn named_lines(all: Seq<NamedText>, n: nat) -> Seq<char>
    decreases n,
{
    if n == 0 {
        Seq::empty()
    } else {
        named_lines(all, (n - 1) as nat) + equation(all[n - 1].name@, all[n - 1].text@)
    }
}

/// A section with a title, or nothing.
pub open spec fn section(is_shown: bool, title: Seq<char>, lines: Seq<char>) -> Seq<char> {
    if is_shown {
        title + lines
    } else {
        Seq::empty()
    }
}

/// What is dumped of the context.
pub open spec fn context_dump(
    flags: Flags,
    functions: Seq<NativeFunction>,
    types: Seq<NamedText>,
) -> Seq<char> {
    section(
        flags.dump_native_functions,
        "# functions\n"@,
        native_function_lines(functions, functions.len()),
    ) + section(flags.dump_native_types, "# types\n"@, native_type_lines(types, types.len()))
}

/// What is dumped of a unit before its instructions.
pub open spec fn unit_head(flags: Flags, bytes: usize) -> Seq<char> {
    if flags.dump_unit {
        "Unit size: "@ + decimal(bytes as nat) + " bytes\n"@ + section(
            flags.emit_instructions,
            "# instructions\n"@,
            Seq::empty(),
        )
    } else {
        Seq::empty()
    }
}

/// What is dumped of a unit behind its instructions. A section that is empty has
/// no title.
pub open spec fn unit_tail(flags: Flags, unit: UnitDump) -> Seq<char> {
    if flags.dump_unit {
        section(
            flags.dump_functions && unit.functions@.len() > 0,
            "# dynamic functions\n"@,
            function_lines(unit.functions@, unit.functions@.len()),
        ) + section(
            unit.strings@.len() > 0,
            "# strings\n"@,
            string_lines(unit.strings@, unit.strings@.len()),
        ) + section(
            unit.bytes@.len() > 0,
            "# bytes\n"@,
            text_lines(unit.bytes@, unit.bytes@.len()),
        ) + section(
            unit.keys@.len() > 0,
            "# object keys\n"@,
            named_lines(unit.keys@, unit.keys@.len()),
        ) + section(
            unit.drop_sets@.len() > 0,
            "# drop sets\n"@,
            text_lines(unit.drop_sets@, unit.drop_sets@.len()),
        ) + section(
            flags.dump_constants && unit.constants@.len() > 0,
            "# constants\n"@,
            named_lines(unit.constants@, unit.constants@.len()),
        )
    } else {
        Seq::empty()
    }
}

/// Append a line with a name and what it is of.
fn append_equation(name: &str, text: &str, o: &mut String)
    ensures
        final(o)@ == old(o)@ + equation(name@, text@),
{
    o.append(name);
    o.append(" = ");
    o.append(text);
    o.append("\n");
    assert(o@ =~= old(o)@ + equation(name@, text@));
}

/// Append the lines of native functions.
fn append_native_functions(functions: &Vec<NativeFunction>, o: &mut String)
    ensures
        final(o)@ == old(o)@ + native_function_lines(functions@, functions@.len()),
{
    let mut i: usize = 0;
    assert(o@ =~= old(o)@ + native_function_lines(functions@, 0));

    while i < functions.len()
        invariant
            i <= functions@.len(),
            o@ == old(o)@ + native_function_lines(functions@, i as nat),
        decreases functions@.len() - i,
    {
        if let Some(item) = &functions[i].item {
            append_zero_padded(i as u128, 4, o);
            o.append(" = ");
            o.append(item.as_str());
            o.append(" (");
            o.append(functions[i].hash.as_str());
            o.append(")\n");
        }
        i += 1;
        assert(o@ =~= old(o)@ + native_function_lines(functions@, i as nat));
    }
}

/// Append the lines of native types.
fn append_native_types(types: &Vec<NamedText>, o: &mut String)
    ensures
        final(o)@ == old(o)@ + native_type_lines(types@, types@.len()),
{
    let mut i: usize = 0;
    assert(o@ =~= old(o)@ + native_type_lines(types@, 0));

    while i < types.len()
        invariant
            i <= types@.len(),
            o@ == old(o)@ + native_type_lines(types@, i as nat),
        decreases types@.len() - i,
    {
        append_zero_padded(i as u128, 4, o);
        o.append(" = ");
        o.append(types[i].name.as_str());
        o.append(" (");
        o.append(types[i].text.as_str());
        o.append(")\n");
        i += 1;
        assert(o@ =~= old(o)@ + native_type_lines(types@, i as nat));
    }
}

/// Append the lines of functions.
fn append_functions(functions: &Vec<DynamicFunction>, o: &mut String)
    ensures
        final(o)@ == old(o)@ + function_lines(functions@, functions@.len()),
{
    let mut i: usize = 0;
    assert(o@ =~= old(o)@ + function_lines(functions@, 0));

    while i < functions.len()
        invariant
            i <= functions@.len(),
            o@ == old(o)@ + function_lines(functions@, i as nat),
        decreases functions@.len() - i,
    {
        let f = &functions[i];
        match &f.signature {
            Some(signature) => append_equation(f.hash.as_str(), signature.as_str(), o),
            None => append_equation(f.hash.as_str(), f.kind.as_str(), o),
        }
        i += 1;
        assert(o@ =~= old(o)@ + function_lines(functions@, i as nat));
    }
}

/// A number in decimal digits.
fn number(n: usize) -> (text: String)
    ensures
        text@ == decimal(n as nat),
{
    let mut text = String::new();
    append_decimal(n as u128, &mut text);
    assert(text@ =~= decimal(n as nat));
    text
}

/// Append the lines of strings.
fn append_strings(strings: &Vec<String>, o: &mut String)
    ensures
        final(o)@ == old(o)@ + string_lines(strings@, strings@.len()),
{
    let mut i: usize = 0;
    assert(o@ =~= old(o)@ + string_lines(strings@, 0));

    while i < strings.len()
        invariant
            i <= strings@.len(),
            o@ == old(o)@ + string_lines(strings@, i as nat),
        decreases strings@.len() - i,
    {
        let mut text = String::new();
        append_quoted(strings[i].as_str(), &mut text);
        assert(text@ =~= quoted(strings@[i as int]@));
        append_equation(number(i).as_str(), text.as_str(), o);
        i += 1;
        assert(o@ =~= old(o)@ + string_lines(strings@, i as nat));
    }
}

/// Append the lines of texts.
fn append_texts(texts: &Vec<String>, o: &mut String)
    ensures
        final(o)@ == old(o)@ + text_lines(texts@, texts@.len()),
{
    let mut i: usize = 0;
    assert(o@ =~= old(o)@ + text_lines(texts@, 0));

    while i < texts.len()
        invariant
            i <= texts@.len(),
            o@ == old(o)@ + text_lines(texts@, i as nat),
        decreases texts@.len() - i,
    {
        append_equation(number(i).as_str(), texts[i].as_str(), o);
        i += 1;
        assert(o@ =~= old(o)@ + text_lines(texts@, i as nat));
    }
}

/// Append the lines of things with a name.
fn append_named(all: &Vec<NamedText>, o: &mut String)
    ensures
        final(o)@ == old(o)@ + named_lines(all@, all@.len()),
{
    let mut i: usize = 0;
    assert(o@ =~= old(o)@ + named_lines(all@, 0));

    while i < all.len()
        invariant
            i <= all@.len(),
            o@ == old(o)@ + named_lines(all@, i as nat),
        decreases all@.len() - i,
    {
        append_equation(all[i].name.as_str(), all[i].text.as_str(), o);
        i += 1;
        assert(o@ =~= old(o)@ + named_lines(all@, i as nat));
    }
}

/// Dump native functions and types.
pub fn dump_context(
    flags: &Flags,
    functions: &Vec<NativeFunction>,
    types: &Vec<NamedText>,
) -> (o: String)
    ensures
        o@ == context_dump(*flags, functions@, types@),
{
    let mut o = String::new();

    if flags.dump_native_functions {
        o.append("# functions\n");
        append_native_functions(functions, &mut o);
    }

    if flags.dump_native_types {
        o.append("# types\n");
        append_native_types(types, &mut o);
    }

    assert(o@ =~= context_dump(*flags, functions@, types@));
    o
}

/// Dump what comes before the instructions of a unit.
pub fn dump_unit_head(flags: &Flags, bytes: usize) -> (o: String)
    ensures
        o@ == unit_head(*flags, bytes),
{
    let mut o = String::new();

    if flags.dump_unit {
        o.append("Unit size: ");
        append_decimal(bytes as u128, &mut o);
        o.append(" bytes\n");

        if flags.emit_instructions {
            o.append("# instructions\n");
        }
    }

    assert(o@ =~= unit_head(*flags, bytes));
    o
}

/// Append the section of functions, unless it is empty or not to be shown.
fn functions_section(is_shown: bool, all: &Vec<DynamicFunction>, o: &mut String)
    ensures
        final(o)@ == old(o)@ + section(
            is_shown && all@.len() > 0,
            "# dynamic functions\n"@,
            function_lines(all@, all@.len()),
        ),
{
    if is_shown && all.len() > 0 {
        o.append("# dynamic functions\n");
        append_functions(all, o);
    }
    assert(o@ =~= old(o)@ + section(
        is_shown && all@.len() > 0,
        "# dynamic functions\n"@,
        function_lines(all@, all@.len()),
    ));
}

/// Append the section of strings, unless it is empty.
fn strings_section(all: &Vec<String>, o: &mut String)
    ensures
        final(o)@ == old(o)@ + section(
            all@.len() > 0,
            "# strings\n"@,
            string_lines(all@, all@.len()),
        ),
{
    if all.len() > 0 {
        o.append("# strings\n");
        append_strings(all, o);
    }
    assert(o@ =~= old(o)@ + section(
        all@.len() > 0,
        "# strings\n"@,
        string_lines(all@, all@.len()),
    ));
}

/// Append the section of bytes, unless it is empty.
fn bytes_section(all: &Vec<String>, o: &mut String)
    ensures
        final(o)@ == old(o)@ + section(
            all@.len() > 0,
            "# bytes\n"@,
            text_lines(all@, all@.len()),
        ),
{
    if all.len() > 0 {
        o.append("# bytes\n");
        append_texts(all, o);
    }
    assert(o@ =~= old(o)@ + section(
        all@.len() > 0,
        "# bytes\n"@,
        text_lines(all@, all@.len()),
    ));
}

/// Append the section of keys of objects, unless it is empty.
fn keys_section(all: &Vec<NamedText>, o: &mut String)
    ensures
        final(o)@ == old(o)@ + section(
            all@.len() > 0,
            "# object keys\n"@,
            named_lines(all@, all@.len()),
        ),
{
    if all.len() > 0 {
        o.append("# object keys\n");
        append_named(all, o);
    }
    assert(o@ =~= old(o)@ + section(
        all@.len() > 0,
        "# object keys\n"@,
        named_lines(all@, all@.len()),
    ));
}

/// Append the section of drop sets, unless it is empty.
fn drop_sets_section(all: &Vec<String>, o: &mut String)
    ensures
        final(o)@ == old(o)@ + section(
            all@.len() > 0,
            "# drop sets\n"@,
            text_lines(all@, all@.len()),
        ),
{
    if all.len() > 0 {
        o.append("# drop sets\n");
        append_texts(all, o);
    }
    assert(o@ =~= old(o)@ + section(
        all@.len() > 0,
        "# drop sets\n"@,
        text_lines(all@, all@.len()),
    ));
}

/// Append the section of constants, unless it is empty or not to be shown.
fn constants_section(is_shown: bool, all: &Vec<NamedText>, o: &mut String)
    ensures
        final(o)@ == old(o)@ + section(
            is_shown && all@.len() > 0,
            "# constants\n"@,
            named_lines(all@, all@.len()),
        ),
{
    if is_shown && all.len() > 0 {
        o.append("# constants\n");
        append_named(all, o);
    }
    assert(o@ =~= old(o)@ + section(
        is_shown && all@.len() > 0,
        "# constants\n"@,
        named_lines(all@, all@.len()),
    ));
}

/// Dump what comes behind the instructions of a unit.
pub fn dump_unit_tail(flags: &Flags, unit: &UnitDump) -> (o: String)
    ensures
        o@ == unit_tail(*flags, *unit),
{
    let mut o = String::new();

    if flags.dump_unit {
        functions_section(flags.dump_functions, &unit.functions, &mut o);
        let ghost first = section(
            flags.dump_functions && unit.functions@.len() > 0,
            "# dynamic functions\n"@,
            function_lines(unit.functions@, unit.functions@.len()),
        );
        assert(o@ =~= first);
        strings_section(&unit.strings, &mut o);
        bytes_section(&unit.bytes, &mut o);
        keys_section(&unit.keys, &mut o);
        drop_sets_section(&unit.drop_sets, &mut o);
        constants_section(flags.dump_constants, &unit.constants, &mut o);
    }

    o
}

/// Test if the result of a script is shown.
pub open spec fn shows_result(flags: Flags, verbose: bool) -> bool {
    verbose || flags.time || flags.dump_return
}

/// How the result of a script is shown.
pub open spec fn result_line(result: Result<Value, Seq<char>>, duration: Seq<char>) -> Seq<char> {
    match result {
        Ok(value) => "== "@ + shown(value) + " ("@ + duration + ")\n"@,
        Err(error) => "== ! ("@ + error + ") ("@ + duration + ")\n"@,
    }
}

/// Report the result of a script: what is shown of it, if it is, and how the
/// command ends.
pub fn report(
    flags: &Flags,
    verbose: bool,
    result: &Result<Value, String>,
    duration: &str,
) -> (r: (Option<String>, ExitCode))
    ensures
        ({
            let view = match *result {
                Ok(value) => Ok::<Value, Seq<char>>(value),
                Err(error) => Err::<Value, Seq<char>>(error@),
            };
            &&& r.0 is Some == shows_result(*flags, verbose)
            &&& r.0 matches Some(line) ==> line@ == result_line(view, duration@)
            &&& r.1 == (if *result is Ok {
                ExitCode::Success
            } else {
                ExitCode::VmError
            })
        }),
{
    let mut o = String::new();

    match result {
        Ok(value) => {
            o.append("== ");
            value.append_debug(&mut o);
            o.append(" (");
            o.append(duration);
            o.append(")\n");
            assert(o@ =~= result_line(Ok(*value), duration@));
        },
        Err(error) => {
            o.append("== ! (");
            o.append(error.as_str());
            o.append(") (");
            o.append(duration);
            o.append(")\n");
            assert(o@ =~= result_line(Err(error@), duration@));
        },
    }

    let line = if verbose || flags.time || flags.dump_return {
        Some(o)
    } else {
        None
    };
    let exit = match result {
        Ok(_) => ExitCode::Success,
        Err(_) => ExitCode::VmError,
    };
    (line, exit)
}

/// The frames and values that are left on a stack.
#[derive(Debug)]
pub struct StackDump {
    /// Where each frame starts.
    pub frames: Vec<usize>,
    /// Where the last frame starts, which is running.
    pub top: usize,
    /// The values on the stack.
    pub values: Vec<Value>,
}

impl StackDump {
    /// Where the frame at `i` ends.
    pub open spec fn end(self, i: int) -> usize {
        if i + 1 < self.frames@.len() {
            self.frames@[i + 1]
        } else {
            self.top
        }
    }

    /// Test if the frames are on the stack, one behind the other.
    pub open spec fn wf(self) -> bool {
        &&& forall|i: int|
            0 <= i < self.frames@.len() ==> #[trigger] self.frames@[i] <= self.end(i)
        &&& forall|i: int|
            0 <= i < self.frames@.len() ==> (#[trigger] self.frames@[i]) <= self.values@.len()
        &&& self.top <= self.values@.len()
    }
}

/// The lines of the first `n` of the values that start at `start`.
pub open spec fn value_lines(values: Seq<Value>, start: int, n: nat) -> Seq<char>
    decreases n,
{
    if n == 0 {
        Seq::empty()
    } else {
        value_lines(values, start, (n - 1) as nat) + "    "@ + decimal(start as nat) + "+"@
            + decimal((n - 1) as nat) + " = "@ + shown(values[start + n - 1]) + "\n"@
    }
}

/// How a frame is shown.
pub open spec fn frame_shown(values: Seq<Value>, index: int, start: int, end: int) -> Seq<char> {
    "  frame #"@ + decimal(index as nat) + " (+"@ + decimal(start as nat) + ")\n"@ + (if end
        <= start {
        "    *empty*\n"@
    } else {
        Seq::empty()
    }) + value_lines(values, start, (end - start) as nat)
}

/// How the first `n` frames are shown.
pub open spec fn frames_shown(stack: StackDump, n: nat) -> Seq<char>
    decreases n,
{
    if n == 0 {
        Seq::empty()
    } else {
        frames_shown(stack, (n - 1) as nat) + frame_shown(
            stack.values@,
            n - 1,
            stack.frames@[n - 1] as int,
            stack.end(n - 1) as int,
        )
    }
}

/// How a stack is shown: its frames, and then the one that is running.
pub open spec fn stack_shown(stack: StackDump) -> Seq<char> {
    "# call frames after halting\n"@ + frames_shown(stack, stack.frames@.len()) + frame_shown(
        stack.values@,
        stack.frames@.len() as int,
        stack.top as int,
        stack.values@.len() as int,
    )
}

/// Append the lines of values.
pub fn append_values(values: &Vec<Value>, start: usize, end: usize, o: &mut String)
    requires
        start <= end <= values@.len(),
    ensures
        final(o)@ == old(o)@ + value_lines(values@, start as int, (end - start) as nat),
{
    let mut n: usize = 0;
    assert(o@ =~= old(o)@ + value_lines(values@, start as int, 0));

    while n < end - start
        invariant
            n <= end - start,
            start <= end <= values@.len(),
            o@ == old(o)@ + value_lines(values@, start as int, n as nat),
        decreases end - start - n,
    {
        o.append("    ");
        append_decimal(start as u128, o);
        o.append("+");
        append_decimal(n as u128, o);
        o.append(" = ");
        values[start + n].append_debug(o);
        o.append("\n");
        n += 1;
        assert(o@ =~= old(o)@ + value_lines(values@, start as int, n as nat));
    }
}

/// Append a frame.
fn append_frame(values: &Vec<Value>, index: usize, start: usize, end: usize, o: &mut String)
    requires
        start <= end <= values@.len(),
    ensures
        final(o)@ == old(o)@ + frame_shown(values@, index as int, start as int, end as int),
{
    o.append("  frame #");
    append_decimal(index as u128, o);
    o.append(" (+");
    append_decimal(start as u128, o);
    o.append(")\n");

    if end <= start {
        o.append("    *empty*\n");
    }

    append_values(values, start, end, o);
    assert(o@ =~= old(o)@ + frame_shown(values@, index as int, start as int, end as int));
}

/// Dump the stack.
pub fn dump_stack(stack: &StackDump) -> (o: String)
    requires
        stack.wf(),
    ensures
        o@ == stack_shown(*stack),
{
    let mut o = String::new();
    o.append("# call frames after halting\n");
    let mut i: usize = 0;
    let ghost start = o@;
    assert(o@ =~= start + frames_shown(*stack, 0));

    while i < stack.frames.len()
        invariant
            i <= stack.frames@.len(),
            stack.wf(),
            o@ == start + frames_shown(*stack, i as nat),
        decreases stack.frames@.len() - i,
    {
        let end: usize = if i + 1 < stack.frames.len() {
            stack.frames[i + 1]
        } else {
            stack.top
        };
        assert(end == stack.end(i as int));
        assert(stack.frames@[i as int] <= stack.end(i as int));
        append_frame(&stack.values, i, stack.frames[i], end, &mut o);
        i += 1;
        assert(o@ =~= start + frames_shown(*stack, i as nat));
    }

    append_frame(&stack.values, stack.frames.len(), stack.top, stack.values.len(), &mut o);
    assert(o@ =~= stack_shown(*stack));
    o
}

} // verus!
