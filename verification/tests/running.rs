use rune::cli::run::{
    dump_context, dump_stack, dump_unit_head, dump_unit_tail, report, DynamicFunction, Flags,
    NamedText, NativeFunction, StackDump, UnitDump,
};
use rune::cli::trace::{traced, RunError, Snapshot, Step, Trace, TraceError, VmOutcome};
use rune::cli::{AssetKind, ExitCode};
use rune::runtime::{HaltInfo, Value, VmError};

fn flags() -> Flags {
    Flags {
        trace: false,
        without_source: false,
        time: false,
        dump: false,
        dump_return: false,
        dump_all: false,
        dump_unit: false,
        dump_constants: false,
        emit_instructions: false,
        dump_stack: false,
        dump_functions: false,
        dump_types: false,
        dump_native_functions: false,
        dump_native_types: false,
        trace_limit: None,
        run_path: Vec::new(),
    }
}

fn named(name: &str, text: &str) -> NamedText {
    NamedText { name: name.to_string(), text: text.to_string() }
}

fn snapshot(ip: usize) -> Snapshot {
    Snapshot {
        ip,
        function: None,
        labels: Vec::new(),
        frames: 0,
        frame: None,
        values: Vec::new(),
        top: 0,
        instruction: Ok(Some("nop".to_string())),
        comment: None,
        source_line: None,
    }
}

fn panic_error() -> VmError {
    VmError::Panic { reason: "no".to_string() }
}

#[test]
fn run_command_works_on_binaries() {
    assert!(flags().is_workspace(AssetKind::Bin));
    assert!(!flags().is_workspace(AssetKind::Test));
    assert!(flags().paths().is_empty());
    assert_eq!(flags().limit(), usize::MAX);
}

#[test]
fn flags_imply_others() {
    let mut f = flags();
    f.propagate();
    assert!(!f.dump_unit && !f.trace && !f.dump_return && !f.emit_instructions);

    let mut f = flags();
    f.dump = true;
    f.propagate();
    assert!(f.dump_unit && f.dump_stack && f.dump_return && f.emit_instructions);
    assert!(!f.dump_constants && !f.dump_functions && !f.dump_native_types);

    let mut f = flags();
    f.dump_all = true;
    f.propagate();
    assert!(f.dump_constants && f.dump_functions && f.dump_types);
    assert!(f.dump_native_functions && f.dump_native_types && f.dump_stack);

    let mut f = flags();
    f.dump_types = true;
    f.propagate();
    assert!(f.dump_unit && f.emit_instructions && !f.dump_stack);

    let mut f = flags();
    f.dump_native_types = true;
    f.propagate();
    assert!(!f.dump_unit);

    let mut f = flags();
    f.trace_limit = Some(3);
    f.propagate();
    assert!(f.trace && f.dump_return && !f.dump_unit);
    assert_eq!(f.limit(), 3);
}

#[test]
fn context_is_dumped() {
    let functions = vec![
        NativeFunction { item: None, hash: "0x1".to_string() },
        NativeFunction { item: Some("::std::print".to_string()), hash: "0x2".to_string() },
    ];
    let types = vec![named("::std::bool", "0x3")];
    let mut f = flags();
    assert_eq!(dump_context(&f, &functions, &types), "");
    f.dump_native_functions = true;
    f.dump_native_types = true;
    assert_eq!(
        dump_context(&f, &functions, &types),
        "# functions\n0001 = ::std::print (0x2)\n# types\n0000 = ::std::bool (0x3)\n"
    );
}

#[test]
fn unit_is_dumped() {
    let unit = UnitDump {
        functions: vec![
            DynamicFunction {
                hash: "0x1".to_string(),
                signature: Some("main()".to_string()),
                kind: "offset 0".to_string(),
            },
            DynamicFunction {
                hash: "0x2".to_string(),
                signature: None,
                kind: "offset 7".to_string(),
            },
        ],
        strings: vec!["a\"b".to_string()],
        bytes: vec!["b\"x\"".to_string()],
        keys: vec![named("0x3", "[\"k\"]")],
        drop_sets: Vec::new(),
        constants: vec![named("0x4", "1")],
    };
    let mut f = flags();
    assert_eq!(dump_unit_head(&f, 10), "");
    assert_eq!(dump_unit_tail(&f, &unit), "");
    f.dump_unit = true;
    assert_eq!(dump_unit_head(&f, 10), "Unit size: 10 bytes\n");
    f.emit_instructions = true;
    assert_eq!(dump_unit_head(&f, 10), "Unit size: 10 bytes\n# instructions\n");
    assert_eq!(
        dump_unit_tail(&f, &unit),
        "# strings\n0 = \"a\\\"b\"\n# bytes\n0 = b\"x\"\n# object keys\n0x3 = [\"k\"]\n"
    );
    f.dump_functions = true;
    f.dump_constants = true;
    assert_eq!(
        dump_unit_tail(&f, &unit),
        "# dynamic functions\n0x1 = main()\n0x2 = offset 7\n# strings\n0 = \"a\\\"b\"\n\
         # bytes\n0 = b\"x\"\n# object keys\n0x3 = [\"k\"]\n# constants\n0x4 = 1\n"
    );
}

#[test]
fn results_are_reported() {
    let mut f = flags();
    assert_eq!(report(&f, false, &Ok(Value::Unit), "1ms"), (None, ExitCode::Success));
    let failed = Err("boom".to_string());
    assert_eq!(report(&f, false, &failed, "1ms"), (None, ExitCode::VmError));
    f.time = true;
    assert_eq!(
        report(&f, false, &Ok(Value::Integer(5)), "1ms"),
        (Some("== 5 (1ms)\n".to_string()), ExitCode::Success)
    );
    assert_eq!(
        report(&flags(), true, &failed, "1ms"),
        (Some("== ! (boom) (1ms)\n".to_string()), ExitCode::VmError)
    );
}

#[test]
fn stack_is_dumped() {
    let stack = StackDump {
        frames: vec![0, 2],
        top: 2,
        values: vec![Value::Integer(1), Value::Bool(true), Value::Unit],
    };
    assert_eq!(
        dump_stack(&stack),
        "# call frames after halting\n  frame #0 (+0)\n    0+0 = 1\n    0+1 = true\n  \
         frame #1 (+2)\n    *empty*\n  frame #2 (+2)\n    2+0 = ()\n"
    );
}

#[test]
fn trace_shows_each_instruction() {
    let mut trace = Trace::new(true, false, 10, 0);
    let mut s = snapshot(7);
    s.function = Some(("0x1".to_string(), "main()".to_string()));
    s.labels = vec!["start".to_string()];
    s.frames = 1;
    s.frame = Some("Frame".to_string());
    s.values = vec![Value::Integer(1), Value::Integer(2)];
    s.top = 1;
    s.comment = Some("why".to_string());
    s.source_line = Some("let a = 1;".to_string());
    let (text, next) = trace.step(&s);
    assert_eq!(
        text,
        "fn main() (0x1):\nstart:\n  push frame 1 (+1) Frame\n  0007 = nop // why\n  \
         let a = 1;\n    1+0 = 2\n"
    );
    assert_eq!(next, Ok(Step::Resume));
    trace.resumed(Ok(VmOutcome::Yielded(Value::Unit))).unwrap();
    assert_eq!(trace.limit, 9);

    let mut s = snapshot(8);
    s.instruction = Ok(None);
    let (text, next) = trace.step(&s);
    assert_eq!(text, "yield: ()\n  pop frame 0 (+0) *root*\n  0008 = *out of bounds*\n");
    assert_eq!(next, Ok(Step::Resume));
}

#[test]
fn trace_can_hide_stack_and_source() {
    let mut trace = Trace::new(false, true, 10, 0);
    let mut s = snapshot(12345);
    s.frames = 1;
    s.source_line = Some("line".to_string());
    s.values = vec![Value::Unit];
    assert_eq!(trace.step(&s).0, "  12345 = nop\n");
}

#[test]
fn completed_trace_shows_one_more_state() {
    let mut trace = Trace::new(false, false, 2, 0);
    assert_eq!(trace.step(&snapshot(0)).1, Ok(Step::Resume));
    trace.resumed(Ok(VmOutcome::Complete(Value::Integer(3)))).unwrap();
    assert_eq!(trace.check_limit(), Ok(()));
    assert_eq!(trace.step(&snapshot(1)).1, Ok(Step::Done(Value::Integer(3))));

    let mut trace = Trace::new(false, false, 1, 0);
    trace.step(&snapshot(0));
    trace.resumed(Ok(VmOutcome::Complete(Value::Integer(3)))).unwrap();
    assert_eq!(trace.check_limit(), Err(TraceError::Limited));
}

#[test]
fn traces_fail() {
    let mut trace = Trace::new(false, false, 2, 0);
    let mut s = snapshot(0);
    s.instruction = Err(panic_error());
    s.labels = vec!["start".to_string()];
    let (text, next) = trace.step(&s);
    assert_eq!(text, "start:\n");
    assert_eq!(next, Err(TraceError::VmError(panic_error())));
    assert_eq!(
        trace.resumed(Err(panic_error())),
        Err(TraceError::VmError(panic_error()))
    );
    assert_eq!(trace.limit, 2);
    trace.resumed(Ok(VmOutcome::Limited)).unwrap();
    assert_eq!(trace.limit, 1);
}

#[test]
fn results_of_traces() {
    assert_eq!(traced(Ok(Value::Unit)), Ok(Ok(Value::Unit)));
    assert_eq!(traced(Err(TraceError::from(panic_error()))), Ok(Err(panic_error())));
    let io = traced(Err(TraceError::Io("closed".to_string()))).unwrap_err();
    assert_eq!(io.display(), "closed");
    let limited = traced(Err(TraceError::Limited)).unwrap_err();
    assert_eq!(limited, RunError::TraceLimitReached);
    assert_eq!(limited.display(), "Trace limit reached");
}

#[test]
fn scripts_that_stop_are_not_complete() {
    assert_eq!(VmOutcome::Complete(Value::Integer(3)).into_complete(), Ok(Value::Integer(3)));
    let yielded = VmOutcome::Yielded(Value::Integer(3)).into_complete();
    assert_eq!(yielded, Err(VmError::Halted { halt: HaltInfo::Yielded }));
    let limited = VmOutcome::Limited.into_complete().unwrap_err();
    assert_eq!(limited.copy(), VmError::Halted { halt: HaltInfo::Limited });
}

fn resumes(limit: usize, completes_at: usize) -> usize {
    let mut trace = Trace::new(false, false, limit, 0);
    let mut n = 0;

    while trace.check_limit().is_ok() {
        match trace.step(&snapshot(n)).1.unwrap() {
            Step::Done(_) => break,
            Step::Resume => n += 1,
        }

        let outcome = if n == completes_at {
            VmOutcome::Complete(Value::Unit)
        } else {
            VmOutcome::Limited
        };
        trace.resumed(Ok(outcome)).unwrap();
    }

    n
}

#[test]
fn scripts_are_resumed_up_to_the_limit() {
    assert_eq!(resumes(5, 3), 3);
    assert_eq!(resumes(3, 3), 3);
    assert_eq!(resumes(2, 3), 2);
    assert_eq!(resumes(0, 3), 0);
}
