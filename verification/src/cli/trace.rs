//! Tracing of scripts.

use vstd::prelude::*;
use vstd::string::*;
use crate::cli::run::{append_values, value_lines};
use crate::runtime::debug::shown;
use crate::runtime::{HaltInfo, Value, VmError};
use crate::text::{append_decimal, append_zero_padded, decimal, zero_padded};

verus! {

/// Why a trace ends without a value.
#[derive(Debug, PartialEq, Eq)]
pub enum TraceError {
    /// The trace cannot be written, for the reason given.
    Io(String),
    /// The script has failed.
    VmError(VmError),
    /// There were more instructions than are to be traced.
    Limited,
}

impl From<VmError> for TraceError {
    fn from(error: VmError) -> (r: Self) {
        TraceError::VmError(error)
    }
}

impl vstd::std_specs::convert::FromSpecImpl<VmError> for TraceError {
    open spec fn obeys_from_spec() -> bool {
        true
    }

    open spec fn from_spec(error: VmError) -> Self {
        TraceError::VmError(error)
    }
}

/// How running a script ends.
#[derive(Debug, PartialEq, Eq)]
pub enum VmOutcome {
    /// The script is complete, with a value.
    Complete(Value),
    /// The script has yielded a value.
    Yielded(Value),
    /// The script goes on.
    Limited,
}

impl VmOutcome {
    /// The value that a script is complete with. It is an error if the script is
    /// not.
    pub fn into_complete(self) -> (r: Result<Value, VmError>)
        ensures
            r == (match self {
                VmOutcome::Complete(value) => Ok::<Value, VmError>(value),
                VmOutcome::Yielded(_) => Err(VmError::Halted { halt: HaltInfo::Yielded }),
                VmOutcome::Limited => Err(VmError::Halted { halt: HaltInfo::Limited }),
            }),
    {
        match self {
            VmOutcome::Complete(value) => Ok(value),
            VmOutcome::Yielded(_) => Err(VmError::Halted { halt: HaltInfo::Yielded }),
            VmOutcome::Limited => Err(VmError::Halted { halt: HaltInfo::Limited }),
        }
    }
}

/// A script between two instructions.
#[derive(Debug)]
pub struct Snapshot {
    /// The instruction that is next.
    pub ip: usize,
    /// The hash and the signature of the function that starts here.
    pub function: Option<(String, String)>,
    /// The labels that are here.
    pub labels: Vec<String>,
    /// The number of frames.
    pub frames: usize,
    /// How the last frame is shown.
    pub frame: Option<String>,
    /// The values on the stack.
    pub values: Vec<Value>,
    /// Where the frame that is running starts.
    pub top: usize,
    /// How the instruction is shown. There is none behind the last one.
    pub instruction: Result<Option<String>, VmError>,
    /// The comment on the instruction.
    pub comment: Option<String>,
    /// The line of the source.
    pub source_line: Option<String>,
}

/// What is next in a trace.
#[derive(Debug, PartialEq, Eq)]
pub enum Step {
    /// The trace is done, with a value.
    Done(Value),
    /// The script is to be run for one instruction.
    Resume,
}

/// A trace.
#[derive(Debug)]
pub struct Trace {
    /// Whether the stack is shown.
    pub dump_stack: bool,
    /// Whether the source is not shown.
    pub without_source: bool,
    /// The number of instructions that are still to be traced.
    pub limit: usize,
    /// The number of frames that there were.
    pub frames: usize,
    /// The value of the script, if it is complete.
    pub result: Option<Value>,
    /// The value that the script has yielded.
    pub yielded: Option<Value>,
}

/// The lines of the first `n` labels.
pub open spec fn label_lines(labels: Seq<String>, n: nat) -> Seq<char>
    decreases n,
{
    if n == 0 {
        Seq::empty()
    } else {
        label_lines(labels, (n - 1) as nat) + labels[n - 1]@ + ":\n"@
    }
}

/// How a value is shown that has been yielded.
pub open spec fn yield_line(yielded: Option<Value>) -> Seq<char> {
    match yielded {
        Some(value) => "yield: "@ + shown(value) + "\n"@,
        None => Seq::empty(),
    }
}

/// How a function is shown that starts.
pub open spec fn function_line(function: Option<(String, String)>) -> Seq<char> {
    match function {
        Some((hash, signature)) => "fn "@ + signature@ + " ("@ + hash@ + "):\n"@,
        None => Seq::empty(),
    }
}

/// How a frame is shown that has been pushed or popped.
pub open spec fn frame_line(before: usize, s: Snapshot) -> Seq<char> {
    "  "@ + (if before < s.frames {
        "push"@
    } else {
        "pop"@
    }) + " frame "@ + decimal(s.frames as nat) + " (+"@ + decimal(s.top as nat) + ")"@ + (
    match s.frame {
        Some(frame) => " "@ + frame@ + "\n"@,
        None => " *root*\n"@,
    })
}

/// How an instruction is shown.
pub open spec fn instruction_line(
    ip: usize,
    instruction: Option<String>,
    comment: Option<String>,
) -> Seq<char> {
    "  "@ + zero_padded(ip as nat, 4) + " = "@ + (match instruction {
        Some(text) => text@,
        None => "*out of bounds*"@,
    }) + (match comment {
        Some(text) => " // "@ + text@,
        None => Seq::empty(),
    }) + "\n"@
}

/// How a line of the source is shown.
pub open spec fn source_shown(without_source: bool, line: Option<String>) -> Seq<char> {
    match line {
        Some(text) => if without_source {
            Seq::empty()
        } else {
            "  "@ + text@ + "\n"@
        },
        None => Seq::empty(),
    }
}

impl Trace {
    /// Test if frames have been pushed or popped, and that is shown.
    pub open spec fn shows_frame(self, s: Snapshot) -> bool {
        self.dump_stack && self.frames != s.frames
    }

    /// What is written before the instruction.
    pub open spec fn head(self, s: Snapshot) -> Seq<char> {
        yield_line(self.yielded) + function_line(s.function) + label_lines(
            s.labels@,
            s.labels@.len(),
        ) + (if self.shows_frame(s) {
            frame_line(self.frames, s)
        } else {
            Seq::empty()
        })
    }

    /// What is written of the instruction, and of the stack.
    pub open spec fn tail(self, s: Snapshot, instruction: Option<String>) -> Seq<char> {
        instruction_line(s.ip, instruction, s.comment) + source_shown(
            self.without_source,
            s.source_line,
        ) + (if self.dump_stack {
            value_lines(s.values@, s.top as int, (s.values@.len() - s.top) as nat)
        } else {
            Seq::empty()
        })
    }

    /// What is written between two instructions.
    pub open spec fn written(self, s: Snapshot) -> Seq<char> {
        match s.instruction {
            Ok(instruction) => self.head(s) + self.tail(s, instruction),
            Err(_) => self.head(s),
        }
    }

    /// The trace after what is between two instructions has been written.
    pub open spec fn stepped(self, s: Snapshot) -> Trace {
        Trace {
            yielded: None,
            frames: if self.shows_frame(s) {
                s.frames
            } else {
                self.frames
            },
            ..self
        }
    }

    /// What is next after what is between two instructions has been written.
    pub open spec fn next_step(self, s: Snapshot) -> Result<Step, TraceError> {
        match s.instruction {
            Err(e) => Err(TraceError::VmError(e)),
            Ok(_) => match self.result {
                Some(value) => Ok(Step::Done(value)),
                None => Ok(Step::Resume),
            },
        }
    }

    /// The trace after one instruction has been run.
    pub open spec fn advanced(self, outcome: VmOutcome) -> Trace {
        Trace {
            limit: (self.limit - 1) as usize,
            result: match outcome {
                VmOutcome::Complete(value) => Some(value),
                _ => self.result,
            },
            yielded: match outcome {
                VmOutcome::Yielded(value) => Some(value),
                _ => self.yielded,
            },
            ..self
        }
    }

    /// Start a trace.
    pub fn new(dump_stack: bool, without_source: bool, limit: usize, frames: usize) -> (t: Self)
        ensures
            t == (Trace { dump_stack, without_source, limit, frames, result: None, yielded: None }),
    {
        Trace { dump_stack, without_source, limit, frames, result: None, yielded: None }
    }

    /// Test if no more instructions are to be traced, which is an error.
    pub fn check_limit(&self) -> (r: Result<(), TraceError>)
        ensures
            match r {
                Ok(_) => self.limit > 0,
                Err(e) => self.limit == 0 && e == TraceError::Limited,
            },
    {
        if self.limit > 0 {
            Ok(())
        } else {
            Err(TraceError::Limited)
        }
    }

    /// Write what comes before the instruction.
    fn write_head(&self, s: &Snapshot) -> (o: String)
        ensures
            o@ == self.head(*s),
    {
        let mut o = String::new();
        if let Some(value) = &self.yielded {
            o.append("yield: ");
            value.append_debug(&mut o);
            o.append("\n");
        }
        assert(o@ =~= yield_line(self.yielded));

        if let Some((hash, signature)) = &s.function {
            o.append("fn ");
            o.append(signature.as_str());
            o.append(" (");
            o.append(hash.as_str());
            o.append("):\n");
        }
        let ghost start = yield_line(self.yielded) + function_line(s.function);
        assert(o@ =~= start);

        let mut i: usize = 0;
        assert(o@ =~= start + label_lines(s.labels@, 0));
        while i < s.labels.len()
            invariant
                i <= s.labels@.len(),
                o@ == start + label_lines(s.labels@, i as nat),
            decreases s.labels@.len() - i,
        {
            o.append(s.labels[i].as_str());
            o.append(":\n");
            i += 1;
            assert(o@ =~= start + label_lines(s.labels@, i as nat));
        }

        if self.dump_stack && self.frames != s.frames {
            write_frame(self.frames, s, &mut o);
        }
        assert(o@ =~= self.head(*s));
        o
    }

    /// Write the instruction and the stack.
    fn write_tail(&self, s: &Snapshot, instruction: &Option<String>, o: &mut String)
        requires
            self.dump_stack ==> s.top <= s.values@.len(),
        ensures
            final(o)@ == old(o)@ + self.tail(*s, *instruction),
    {
        write_instruction(s.ip, instruction, &s.comment, o);
        let ghost line = instruction_line(s.ip, *instruction, s.comment);

        if !self.without_source {
            if let Some(text) = &s.source_line {
                o.append("  ");
                o.append(text.as_str());
                o.append("\n");
            }
        }
        let ghost source = source_shown(self.without_source, s.source_line);
        assert(o@ =~= old(o)@ + line + source);

        if self.dump_stack {
            append_values(&s.values, s.top, s.values.len(), o);
        }
        assert(o@ =~= old(o)@ + self.tail(*s, *instruction));
    }

    /// Write what is between two instructions, and tell what is next.
    pub fn step(&mut self, s: &Snapshot) -> (r: (String, Result<Step, TraceError>))
        requires
            old(self).dump_stack && s.instruction is Ok ==> s.top <= s.values@.len(),
        ensures
            r.0@ == old(self).written(*s),
            r.1 == old(self).next_step(*s),
            *final(self) == old(self).stepped(*s),
    {
        let mut o = self.write_head(s);
        self.yielded = None;

        if self.dump_stack && self.frames != s.frames {
            self.frames = s.frames;
        }

        match &s.instruction {
            Err(e) => (o, Err(TraceError::VmError(e.copy()))),
            Ok(instruction) => {
                self.write_tail(s, instruction, &mut o);
                match &self.result {
                    Some(value) => (o, Ok(Step::Done(value.copy()))),
                    None => (o, Ok(Step::Resume)),
                }
            },
        }
    }

    /// Go on after one instruction has been run.
    pub fn resumed(&mut self, outcome: Result<VmOutcome, VmError>) -> (r: Result<(), TraceError>)
        requires
            old(self).limit > 0,
        ensures
            match outcome {
                Err(e) => r == Err::<(), TraceError>(TraceError::VmError(e)) && *final(self)
                    == *old(self),
                Ok(outcome) => r is Ok && *final(self) == old(self).advanced(outcome),
            },
    {
        match outcome {
            Err(e) => return Err(TraceError::VmError(e)),
            Ok(VmOutcome::Complete(value)) => {
                self.result = Some(value);
            },
            Ok(VmOutcome::Yielded(value)) => {
                self.yielded = Some(value);
            },
            Ok(VmOutcome::Limited) => {},
        }

        self.limit = self.limit - 1;
        Ok(())
    }
}

/// Write a frame that has been pushed or popped.
fn write_frame(before: usize, s: &Snapshot, o: &mut String)
    ensures
        final(o)@ == old(o)@ + frame_line(before, *s),
{
    o.append("  ");
    if before < s.frames {
        o.append("push");
    } else {
        o.append("pop");
    }
    o.append(" frame ");
    append_decimal(s.frames as u128, o);
    o.append(" (+");
    append_decimal(s.top as u128, o);
    o.append(")");

    match &s.frame {
        Some(frame) => {
            o.append(" ");
            o.append(frame.as_str());
            o.append("\n");
        },
        None => o.append(" *root*\n"),
    }
    assert(o@ =~= old(o)@ + frame_line(before, *s));
}

/// Write an instruction.
fn write_instruction(
    ip: usize,
    instruction: &Option<String>,
    comment: &Option<String>,
    o: &mut String,
)
    ensures
        final(o)@ == old(o)@ + instruction_line(ip, *instruction, *comment),
{
    o.append("  ");
    append_zero_padded(ip as u128, 4, o);
    o.append(" = ");

    match instruction {
        Some(text) => o.append(text.as_str()),
        None => o.append("*out of bounds*"),
    }

    if let Some(text) = comment {
        o.append(" // ");
        o.append(text.as_str());
    }

    o.append("\n");
    assert(o@ =~= old(o)@ + instruction_line(ip, *instruction, *comment));
}

/// Why a command ends without a result.
#[derive(Debug, PartialEq, Eq)]
pub enum RunError {
    /// The trace cannot be written, for the reason given.
    Io(String),
    /// There were more instructions than are to be traced.
    TraceLimitReached,
}

impl RunError {
    /// How the error is shown.
    pub fn display(&self) -> (text: String)
        ensures
            text@ == (match *self {
                RunError::Io(reason) => reason@,
                RunError::TraceLimitReached => "Trace limit reached"@,
            }),
    {
        match self {
            RunError::Io(reason) => reason.clone(),
            RunError::TraceLimitReached => "Trace limit reached".to_owned(),
        }
    }
}

/// The result of a script that has been traced.
pub fn traced(r: Result<Value, TraceError>) -> (result: Result<Result<Value, VmError>, RunError>)
    ensures
        result == (match r {
            Ok(value) => Ok::<Result<Value, VmError>, RunError>(Ok(value)),
            Err(TraceError::VmError(e)) => Ok(Err(e)),
            Err(TraceError::Io(reason)) => Err(RunError::Io(reason)),
            Err(TraceError::Limited) => Err(RunError::TraceLimitReached),
        }),
{
    match r {
        Ok(value) => Ok(Ok(value)),
        Err(TraceError::VmError(e)) => Ok(Err(e)),
        Err(TraceError::Io(reason)) => Err(RunError::Io(reason)),
        Err(TraceError::Limited) => Err(RunError::TraceLimitReached),
    }
}

/// How a trace of a script ends. The script is at `i`: there is a snapshot of it
/// there, and the outcome of the instruction behind it.
pub open spec fn conclusion(
    trace: Trace,
    snapshots: spec_fn(int) -> Snapshot,
    outcomes: spec_fn(int) -> Result<VmOutcome, VmError>,
    i: int,
) -> Result<Value, TraceError>
    decreases trace.limit,
{
    if trace.limit == 0 {
        Err(TraceError::Limited)
    } else {
        match trace.next_step(snapshots(i)) {
            Err(e) => Err(e),
            Ok(Step::Done(value)) => Ok(value),
            Ok(Step::Resume) => match outcomes(i) {
                Err(e) => Err(TraceError::VmError(e)),
                Ok(outcome) => conclusion(
                    trace.stepped(snapshots(i)).advanced(outcome),
                    snapshots,
                    outcomes,
                    i + 1,
                ),
            },
        }
    }
}

/// How often a script is resumed in a trace of it. The script is at `i`.
pub open spec fn resumes(
    trace: Trace,
    snapshots: spec_fn(int) -> Snapshot,
    outcomes: spec_fn(int) -> Result<VmOutcome, VmError>,
    i: int,
) -> nat
    decreases trace.limit,
{
    if trace.limit == 0 {
        0
    } else {
        match trace.next_step(snapshots(i)) {
            Ok(Step::Resume) => match outcomes(i) {
                Err(_) => 1,
                Ok(outcome) => 1 + resumes(
                    trace.stepped(snapshots(i)).advanced(outcome),
                    snapshots,
                    outcomes,
                    i + 1,
                ),
            },
            _ => 0,
        }
    }
}

/// A script whose instruction number `k` is the first one that completes it or
/// fails is resumed `k` times, or as often as the limit allows if that is less.
pub proof fn lemma_resumes(
    trace: Trace,
    snapshots: spec_fn(int) -> Snapshot,
    outcomes: spec_fn(int) -> Result<VmOutcome, VmError>,
    i: int,
    k: nat,
)
    requires
        k > 0,
        trace.result is None,
        forall|j: int| i <= j < i + k ==> (#[trigger] snapshots(j)).instruction is Ok,
        forall|j: int|
            i <= j < i + k - 1 ==> #[trigger] outcomes(j) is Ok && !(outcomes(j)->Ok_0 is Complete),
        outcomes(i + k - 1) is Err || outcomes(i + k - 1)->Ok_0 is Complete,
    ensures
        resumes(trace, snapshots, outcomes, i) == (if k <= trace.limit {
            k
        } else {
            trace.limit as nat
        }),
    decreases k,
{
    if trace.limit > 0 {
        let s = snapshots(i);
        assert(s.instruction is Ok);
        if outcomes(i) is Ok {
            let next = trace.stepped(s).advanced(outcomes(i)->Ok_0);
            if k == 1 {
                assert(resumes(next, snapshots, outcomes, i + 1) == 0);
            } else {
                lemma_resumes(next, snapshots, outcomes, i + 1, (k - 1) as nat);
            }
        }
    }
}

/// If a script completes within the first `n` of its instructions, none of which
/// fails, then a trace with a limit above `n` gives its value.
pub proof fn lemma_completes(
    trace: Trace,
    snapshots: spec_fn(int) -> Snapshot,
    outcomes: spec_fn(int) -> Result<VmOutcome, VmError>,
    i: int,
    n: nat,
    value: Value,
)
    requires
        0 < n < trace.limit,
        trace.result is None,
        forall|j: int| i <= j <= i + n ==> (#[trigger] snapshots(j)).instruction is Ok,
        forall|j: int|
            i <= j < i + n - 1 ==> #[trigger] outcomes(j) is Ok && !(outcomes(j)->Ok_0 is Complete),
        outcomes(i + n - 1) == Ok::<VmOutcome, VmError>(VmOutcome::Complete(value)),
    ensures
        conclusion(trace, snapshots, outcomes, i) == Ok::<Value, TraceError>(value),
    decreases n,
{
    let s = snapshots(i);
    assert(s.instruction is Ok);
    if n == 1 {
        let next = trace.stepped(s).advanced(VmOutcome::Complete(value));
        assert(snapshots(i + 1).instruction is Ok);
        assert(conclusion(next, snapshots, outcomes, i + 1) == Ok::<Value, TraceError>(value));
    } else {
        let outcome = outcomes(i)->Ok_0;
        assert(outcomes(i) is Ok);
        lemma_completes(
            trace.stepped(s).advanced(outcome),
            snapshots,
            outcomes,
            i + 1,
            (n - 1) as nat,
            value,
        );
    }
}

/// If a script does not complete within as many instructions as are to be
/// traced, none of which fails, then the limit is reached.
pub proof fn lemma_limited(
    trace: Trace,
    snapshots: spec_fn(int) -> Snapshot,
    outcomes: spec_fn(int) -> Result<VmOutcome, VmError>,
    i: int,
)
    requires
        trace.result is None,
        forall|j: int| i <= j < i + trace.limit ==> (#[trigger] snapshots(j)).instruction is Ok,
        forall|j: int|
            i <= j < i + trace.limit - 1 ==> #[trigger] outcomes(j) is Ok && !(outcomes(
                j,
            )->Ok_0 is Complete),
        trace.limit > 0 ==> outcomes(i + trace.limit - 1) is Ok,
    ensures
        conclusion(trace, snapshots, outcomes, i) == Err::<Value, TraceError>(TraceError::Limited),
    decreases trace.limit,
{
    if trace.limit > 0 {
        let s = snapshots(i);
        assert(s.instruction is Ok);
        assert(outcomes(i) is Ok);
        let next = trace.stepped(s).advanced(outcomes(i)->Ok_0);
        if trace.limit == 1 {
            assert(conclusion(next, snapshots, outcomes, i + 1) == Err::<Value, TraceError>(
                TraceError::Limited,
            ));
        } else {
            lemma_limited(next, snapshots, outcomes, i + 1);
        }
    }
}

} // verus!
