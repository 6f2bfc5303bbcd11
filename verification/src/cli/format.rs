//! Formatting of source files.

use vstd::prelude::*;
use vstd::string::*;
use crate::cli::diff::{diff, groups_shown, line_diff};
use crate::cli::format_laws::{is_named, lemma_named};
use crate::cli::output::{colored, plain, AssetKind, Color, ExitCode, Output, PieceView};
use crate::cli::paths::{is_sorted, Path, PathSet};
use crate::text::{append_decimal, decimal};

verus! {

/// The flags of the command.
#[derive(Debug)]
pub struct Flags {
    /// Exit with a non-zero exit-code even for warnings.
    pub warnings_are_errors: bool,
    /// Perform format checking. If there are any files which need to be changed,
    /// the command fails.
    pub check: bool,
    /// Explicit paths to format.
    pub fmt_path: Vec<Path>,
}

/// The flags that are shared by all commands.
#[derive(Debug, Clone, Copy, PartialEq, Eq, Structural)]
pub struct SharedFlags {
    /// Show more.
    pub verbose: bool,
    /// Show warnings.
    pub warnings: bool,
}

impl Flags {
    /// Test if the command works on what is of a kind in the workspace.
    pub fn is_workspace(&self, _kind: AssetKind) -> (r: bool)
        ensures
            r,
    {
        true
    }

    /// What the command does.
    pub fn describe(&self) -> (text: &'static str)
        ensures
            text@ == "Formatting"@,
    {
        "Formatting"
    }

    /// Extra paths to format.
    pub fn paths(&self) -> (paths: &Vec<Path>)
        ensures
            *paths == self.fmt_path,
    {
        &self.fmt_path
    }

    /// Test if warnings are gathered while building.
    pub fn gathers_warnings(&self, shared: &SharedFlags) -> (r: bool)
        ensures
            r == (shared.warnings || self.warnings_are_errors),
    {
        shared.warnings || self.warnings_are_errors
    }

    /// Test if a build has failed, by what was found while building.
    pub open spec fn is_failure(self, has_error: bool, has_warning: bool) -> bool {
        has_error || (self.warnings_are_errors && has_warning)
    }
}

/// An entry point, and what is found through it.
#[derive(Debug)]
pub enum Discovered {
    /// A path that was given as an argument, which need not be built to discover
    /// others.
    Argument(Path),
    /// An entry point that was built.
    Built {
        /// Whether there was an error.
        has_error: bool,
        /// Whether there was a warning.
        has_warning: bool,
        /// The paths of all sources. One that is not of a file has none.
        sources: Vec<Option<Path>>,
    },
}

/// What is found through all entry points.
#[derive(Debug)]
pub struct Discovery {
    /// The paths to format, in order.
    pub paths: PathSet,
    /// The number of builds that have failed.
    pub failed_builds: u32,
}

/// The paths that are found through the first `n` sources.
pub open spec fn source_paths(sources: Seq<Option<Path>>, n: nat) -> Set<Seq<Seq<u8>>>
    decreases n,
{
    if n == 0 {
        Set::empty()
    } else {
        let before = source_paths(sources, (n - 1) as nat);
        match sources[n - 1] {
            Some(path) => before.insert(path@),
            None => before,
        }
    }
}

/// The paths that are found through an entry point.
pub open spec fn entry_paths(entry: Discovered) -> Set<Seq<Seq<u8>>> {
    match entry {
        Discovered::Argument(path) => set![path@],
        Discovered::Built { sources, .. } => source_paths(sources@, sources@.len()),
    }
}

/// The paths that are found through the first `n` entry points.
pub open spec fn found(entries: Seq<Discovered>, n: nat) -> Set<Seq<Seq<u8>>>
    decreases n,
{
    if n == 0 {
        Set::empty()
    } else {
        found(entries, (n - 1) as nat).union(entry_paths(entries[n - 1]))
    }
}

/// Test if the build of an entry point has failed.
pub open spec fn build_failed(flags: Flags, entry: Discovered) -> bool {
    match entry {
        Discovered::Argument(_) => false,
        Discovered::Built { has_error, has_warning, .. } => flags.is_failure(
            has_error,
            has_warning,
        ),
    }
}

/// The number of builds of the first `n` entry points that have failed.
pub open spec fn failures(flags: Flags, entries: Seq<Discovered>, n: nat) -> nat
    decreases n,
{
    if n == 0 {
        0
    } else {
        failures(flags, entries, (n - 1) as nat) + if build_failed(flags, entries[n - 1]) {
            1nat
        } else {
            0nat
        }
    }
}

/// Copy a path.
fn copy_path(path: &Path) -> (r: Path)
    ensures
        r@ == path@,
{
    let mut components: Vec<Vec<u8>> = Vec::new();
    let mut i: usize = 0;

    while i < path.components.len()
        invariant
            i <= path.components@.len(),
            components@.len() == i,
            forall|j: int| 0 <= j < i ==> (#[trigger] components@[j])@ == path.components@[j]@,
        decreases path.components@.len() - i,
    {
        components.push(path.components[i].clone());
        i += 1;
    }

    let r = Path { components };
    assert(r@ =~= path@);
    r
}

/// Gather the paths to format, and the number of builds that have failed.
pub fn discover(flags: &Flags, entries: &Vec<Discovered>) -> (r: Discovery)
    requires
        entries@.len() <= u32::MAX,
    ensures
        is_sorted(r.paths@),
        r.paths@.to_set() == found(entries@, entries@.len()),
        forall|path: Seq<Seq<u8>>| #[trigger]
            r.paths@.contains(path) <==> is_named(entries@, path),
        r.failed_builds == failures(*flags, entries@, entries@.len()),
{
    let mut paths = PathSet::new();
    let mut failed_builds: u32 = 0;
    let mut i: usize = 0;
    assert(paths@.to_set() =~= Set::empty());

    while i < entries.len()
        invariant
            i <= entries@.len(),
            entries@.len() <= u32::MAX,
            is_sorted(paths@),
            paths@.to_set() == found(entries@, i as nat),
            failed_builds == failures(*flags, entries@, i as nat),
            failed_builds <= i,
        decreases entries@.len() - i,
    {
        match &entries[i] {
            Discovered::Argument(path) => {
                paths.insert(copy_path(path));
                assert(paths@.to_set() =~= found(entries@, i as nat).union(set![path@]));
            },
            Discovered::Built { has_error, has_warning, sources } => {
                if *has_error || flags.warnings_are_errors && *has_warning {
                    failed_builds += 1;
                }

                let mut j: usize = 0;
                assert(paths@.to_set() =~= found(entries@, i as nat).union(
                    source_paths(sources@, 0),
                ));

                while j < sources.len()
                    invariant
                        j <= sources@.len(),
                        is_sorted(paths@),
                        paths@.to_set() == found(entries@, i as nat).union(
                            source_paths(sources@, j as nat),
                        ),
                    decreases sources@.len() - j,
                {
                    if let Some(path) = &sources[j] {
                        paths.insert(copy_path(path));
                    }
                    j += 1;
                    assert(paths@.to_set() =~= found(entries@, i as nat).union(
                        source_paths(sources@, j as nat),
                    ));
                }
            },
        }
        i += 1;
    }

    proof {
        assert forall|path: Seq<Seq<u8>>| #[trigger] paths@.contains(path) <==> is_named(
            entries@,
            path,
        ) by {
            lemma_named(entries@, path);
            assert(paths@.to_set().contains(path) == paths@.contains(path));
        }
    }
    Discovery { paths, failed_builds }
}

/// What has become of a file.
#[derive(Debug, Clone, Copy, PartialEq, Eq, Structural)]
pub enum Outcome {
    /// It cannot be formatted.
    Failed,
    /// It is formatted as it should be.
    Unchanged,
    /// It is not formatted as it should be.
    Changed,
}

/// What is to be done about a file that has been formatted.
#[derive(Debug)]
pub struct Decision {
    /// What has become of the file.
    pub outcome: Outcome,
    /// What is written to the terminal.
    pub output: Output,
    /// Whether the file is replaced.
    pub replace: bool,
}

/// What is written of a file whose name is shown behind a mark.
pub open spec fn marked(color: Color, mark: Seq<char>, name: Seq<char>) -> Seq<PieceView> {
    seq![colored(color, mark), plain(name + "\n"@)]
}

/// What is written of a file.
pub open spec fn file_shown(
    flags: Flags,
    verbose: bool,
    name: Seq<char>,
    same: bool,
    difference: Seq<PieceView>,
) -> Seq<PieceView> {
    if same {
        if verbose {
            marked(Color::Green, "== "@, name)
        } else {
            Seq::empty()
        }
    } else if verbose || flags.check {
        marked(Color::Yellow, "++ "@, name) + difference
    } else {
        Seq::empty()
    }
}

/// Test if this is what is to be done about a file.
pub open spec fn is_decision(
    d: Decision,
    flags: Flags,
    verbose: bool,
    name: Seq<char>,
    same: bool,
    has_path: bool,
    difference: Seq<PieceView>,
) -> bool {
    &&& d.outcome == (if same {
        Outcome::Unchanged
    } else {
        Outcome::Changed
    })
    &&& d.output@ == file_shown(flags, verbose, name, same, difference)
    &&& d.replace == (!same && !flags.check && has_path)
}

/// Write the name of a file behind a mark.
fn mark(color: Color, text: &str, name: &str) -> (o: Output)
    ensures
        o@ == marked(color, text@, name@),
{
    let mut o = Output::new();
    o.colored(color, text.to_owned());
    let mut line = name.to_owned();
    line.append("\n");
    o.plain(line);
    assert(o@ =~= marked(color, text@, name@));
    o
}

/// Decide what is to be done about a file that is formatted as it should be, or
/// of which the difference is shown like this.
pub fn decide_with(
    flags: &Flags,
    shared: &SharedFlags,
    name: &str,
    same: bool,
    has_path: bool,
    difference: Output,
) -> (d: Decision)
    ensures
        is_decision(d, *flags, shared.verbose, name@, same, has_path, difference@),
{
    if same {
        let output = if shared.verbose {
            mark(Color::Green, "== ", name)
        } else {
            Output::new()
        };
        return Decision { outcome: Outcome::Unchanged, output, replace: false };
    }

    let output = if shared.verbose || flags.check {
        let mut output = mark(Color::Yellow, "++ ", name);
        output.output(difference);
        output
    } else {
        Output::new()
    };

    Decision { outcome: Outcome::Changed, output, replace: !flags.check && has_path }
}

/// Decide what is to be done about a file that has been formatted.
pub fn decide(
    flags: &Flags,
    shared: &SharedFlags,
    name: &str,
    source: &String,
    formatted: &String,
    has_path: bool,
) -> (d: Decision)
    ensures
        is_decision(
            d,
            *flags,
            shared.verbose,
            name@,
            source@ == formatted@,
            has_path,
            ({
                let all = line_diff(source@, formatted@, 3);
                groups_shown(all, all.len())
            }),
        ),
{
    let same = *source == *formatted;

    if same || !(shared.verbose || flags.check) {
        return decide_with(flags, shared, name, same, has_path, Output::new());
    }

    let difference = diff(source.as_str(), formatted.as_str());
    decide_with(flags, shared, name, same, has_path, difference)
}

/// How often each outcome came about.
#[derive(Debug, Clone, Copy, PartialEq, Eq, Structural)]
pub struct Counts {
    /// The number of files that are not formatted as they should be.
    pub changed: u32,
    /// The number of files that cannot be formatted.
    pub failed: u32,
    /// The number of files that are formatted as they should be.
    pub unchanged: u32,
    /// The number of builds that have failed.
    pub failed_builds: u32,
}

/// How often an outcome came about in the first `n` ones.
pub open spec fn occurrences(outcomes: Seq<Outcome>, outcome: Outcome, n: nat) -> nat
    decreases n,
{
    if n == 0 {
        0
    } else {
        occurrences(outcomes, outcome, (n - 1) as nat) + if outcomes[n - 1] == outcome {
            1nat
        } else {
            0nat
        }
    }
}

/// Every outcome is counted once.
pub proof fn lemma_occurrences(outcomes: Seq<Outcome>, n: nat)
    requires
        n <= outcomes.len(),
    ensures
        occurrences(outcomes, Outcome::Changed, n) + occurrences(outcomes, Outcome::Failed, n)
            + occurrences(outcomes, Outcome::Unchanged, n) == n,
    decreases n,
{
    if n > 0 {
        lemma_occurrences(outcomes, (n - 1) as nat);
    }
}

/// Count how often each outcome came about.
pub fn count(outcomes: &Vec<Outcome>, failed_builds: u32) -> (counts: Counts)
    requires
        outcomes@.len() <= u32::MAX,
    ensures
        counts.changed == occurrences(outcomes@, Outcome::Changed, outcomes@.len()),
        counts.failed == occurrences(outcomes@, Outcome::Failed, outcomes@.len()),
        counts.unchanged == occurrences(outcomes@, Outcome::Unchanged, outcomes@.len()),
        counts.failed_builds == failed_builds,
{
    let mut counts = Counts { changed: 0, failed: 0, unchanged: 0, failed_builds };
    let mut i: usize = 0;

    while i < outcomes.len()
        invariant
            i <= outcomes@.len(),
            outcomes@.len() <= u32::MAX,
            counts.changed == occurrences(outcomes@, Outcome::Changed, i as nat),
            counts.failed == occurrences(outcomes@, Outcome::Failed, i as nat),
            counts.unchanged == occurrences(outcomes@, Outcome::Unchanged, i as nat),
            counts.failed_builds == failed_builds,
            counts.changed <= i,
            counts.failed <= i,
            counts.unchanged <= i,
        decreases outcomes@.len() - i,
    {
        match outcomes[i] {
            Outcome::Changed => counts.changed = counts.changed + 1,
            Outcome::Failed => counts.failed = counts.failed + 1,
            Outcome::Unchanged => counts.unchanged = counts.unchanged + 1,
        }
        i += 1;
    }

    counts
}

/// A number in a colour, and what it is of, or nothing.
pub open spec fn total(shown: bool, color: Color, n: u32, what: Seq<char>) -> Seq<PieceView> {
    if shown {
        seq![colored(color, decimal(n as nat)), plain(what)]
    } else {
        Seq::empty()
    }
}

/// What is written in the end.
pub open spec fn summary(check: bool, verbose: bool, counts: Counts) -> Seq<PieceView> {
    total(verbose && counts.unchanged > 0, Color::Green, counts.unchanged, " unchanged\n"@) + total(
        verbose && counts.changed > 0,
        Color::Yellow,
        counts.changed,
        " changed\n"@,
    ) + total(verbose || counts.failed > 0, Color::Red, counts.failed, " failed\n"@) + total(
        verbose || counts.failed_builds > 0,
        Color::Red,
        counts.failed_builds,
        " failed builds\n"@,
    ) + if check && counts.changed > 0 {
        seq![
            colored(Color::Red, "Failure due to `--check` flag and unformatted files.\n"@),
        ]
    } else {
        Seq::empty()
    }
}

/// Test if the command fails. It does if a file or a build has, and if a file is
/// not formatted as it should be and that is checked.
pub open spec fn is_failure(check: bool, counts: Counts) -> bool {
    (check && counts.changed > 0) || counts.failed > 0 || counts.failed_builds > 0
}

/// Write a number in a colour, and what it is of.
fn write_total(shown: bool, color: Color, n: u32, what: &str, o: &mut Output)
    ensures
        final(o)@ == old(o)@ + total(shown, color, n, what@),
{
    if shown {
        let mut text = String::new();
        append_decimal(n as u128, &mut text);
        assert(text@ =~= decimal(n as nat));
        o.colored(color, text);
        o.plain(what.to_owned());
    }
    assert(o@ =~= old(o)@ + total(shown, color, n, what@));
}

/// Write the summary, and tell how the command ends.
pub fn finish(flags: &Flags, shared: &SharedFlags, counts: &Counts) -> (r: (Output, ExitCode))
    ensures
        r.0@ == summary(flags.check, shared.verbose, *counts),
        r.1 == (if is_failure(flags.check, *counts) {
            ExitCode::Failure
        } else {
            ExitCode::Success
        }),
{
    let verbose = shared.verbose;
    let mut o = Output::new();
    let unchanged = counts.unchanged;
    let changed = counts.changed;
    let failed = counts.failed;
    let builds = counts.failed_builds;
    write_total(verbose && unchanged > 0, Color::Green, unchanged, " unchanged\n", &mut o);
    write_total(verbose && changed > 0, Color::Yellow, changed, " changed\n", &mut o);
    write_total(verbose || failed > 0, Color::Red, failed, " failed\n", &mut o);
    write_total(verbose || builds > 0, Color::Red, builds, " failed builds\n", &mut o);

    if flags.check && changed > 0 {
        o.colored(
            Color::Red,
            "Failure due to `--check` flag and unformatted files.\n".to_owned(),
        );
        assert(o@ =~= summary(flags.check, shared.verbose, *counts));
        return (o, ExitCode::Failure);
    }

    assert(o@ =~= summary(flags.check, shared.verbose, *counts));

    if failed > 0 || builds > 0 {
        return (o, ExitCode::Failure);
    }

    (o, ExitCode::Success)
}

/// A file is replaced exactly if it is not formatted as it should be, that is
/// not just checked, and it has a path. Then nothing fails on its account.
pub proof fn lemma_replaced(
    d: Decision,
    flags: Flags,
    verbose: bool,
    name: Seq<char>,
    same: bool,
    has_path: bool,
    difference: Seq<PieceView>,
)
    requires
        is_decision(d, flags, verbose, name, same, has_path, difference),
    ensures
        flags.check ==> !d.replace,
        d.replace ==> d.outcome == Outcome::Changed,
        d.outcome == Outcome::Changed && has_path ==> d.replace || flags.check,
{
}

/// The command succeeds exactly if no build has failed and every file could be
/// formatted and, if that is checked, is as it should be.
pub proof fn lemma_success(outcomes: Seq<Outcome>, check: bool, counts: Counts)
    requires
        counts.changed == occurrences(outcomes, Outcome::Changed, outcomes.len()),
        counts.failed == occurrences(outcomes, Outcome::Failed, outcomes.len()),
    ensures
        !is_failure(check, counts) <==> counts.failed_builds == 0 && forall|i: int|
            0 <= i < outcomes.len() ==> #[trigger] outcomes[i] != Outcome::Failed && (check
                ==> outcomes[i] != Outcome::Changed),
{
    lemma_none(outcomes, Outcome::Changed, outcomes.len());
    lemma_none(outcomes, Outcome::Failed, outcomes.len());
    if check && counts.changed > 0 {
        let i = choose|i: int| 0 <= i < outcomes.len() && outcomes[i] == Outcome::Changed;
        assert(outcomes[i] == Outcome::Changed);
    }
    if counts.failed > 0 {
        let i = choose|i: int| 0 <= i < outcomes.len() && outcomes[i] == Outcome::Failed;
        assert(outcomes[i] == Outcome::Failed);
    }
}

/// An outcome is counted exactly if it came about.
proof fn lemma_none(outcomes: Seq<Outcome>, outcome: Outcome, n: nat)
    requires
        n <= outcomes.len(),
    ensures
        occurrences(outcomes, outcome, n) > 0 <==> exists|i: int|
            0 <= i < n && #[trigger] outcomes[i] == outcome,
    decreases n,
{
    if n > 0 {
        lemma_none(outcomes, outcome, (n - 1) as nat);
    }
}

} // verus!
