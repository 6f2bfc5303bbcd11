//! Laws of the formatting of source files.

use vstd::prelude::*;
use crate::cli::format::{
    failures, file_shown, found, is_decision, is_failure, occurrences, source_paths, summary,
    Counts, Decision, Discovered, Flags, Outcome,
};
use crate::cli::output::{Color, PieceView, Target};
use crate::cli::paths::{before, byte_lower, component_lower, lower_from, Path};
use crate::text::decimal;

verus! {

/// Test if a path is the one of some source.
pub open spec fn is_source(sources: Seq<Option<Path>>, path: Seq<Seq<u8>>) -> bool {
    exists|j: int|
        0 <= j < sources.len() && #[trigger] sources[j] is Some && sources[j]->0@ == path
}

/// Test if a path is named by an entry point: it is the argument, or the path of
/// one of the sources that were built.
pub open spec fn names(entry: Discovered, path: Seq<Seq<u8>>) -> bool {
    ||| entry is Argument && entry->Argument_0@ == path
    ||| entry is Built && is_source(entry->sources@, path)
}

/// Test if a path is named by one of the entry points.
pub open spec fn is_named(entries: Seq<Discovered>, path: Seq<Seq<u8>>) -> bool {
    exists|i: int| 0 <= i < entries.len() && names(#[trigger] entries[i], path)
}

/// A path is found through sources exactly if it is the path of one of them.
proof fn lemma_source_paths(sources: Seq<Option<Path>>, n: nat, path: Seq<Seq<u8>>)
    requires
        n <= sources.len(),
    ensures
        source_paths(sources, n).contains(path) <==> is_source(sources.take(n as int), path),
    decreases n,
{
    let taken = sources.take(n as int);
    if n > 0 {
        let rest = sources.take(n - 1);
        lemma_source_paths(sources, (n - 1) as nat, path);
        assert forall|j: int| 0 <= j < n - 1 implies #[trigger] rest[j] == taken[j] by {}
        if is_source(rest, path) {
            let j = choose|j: int|
                0 <= j < rest.len() && #[trigger] rest[j] is Some && rest[j]->0@ == path;
            assert(taken[j] is Some && taken[j]->0@ == path);
        }
        if is_source(taken, path) {
            let j = choose|j: int|
                0 <= j < taken.len() && #[trigger] taken[j] is Some && taken[j]->0@ == path;
            if j < n - 1 {
                assert(rest[j] is Some && rest[j]->0@ == path);
            }
        }
        assert(taken[n - 1] == sources[n - 1]);
    }
}

/// A path is among those that are found through the first `n` entry points
/// exactly if one of them names it.
proof fn lemma_found_first(entries: Seq<Discovered>, n: nat, path: Seq<Seq<u8>>)
    requires
        n <= entries.len(),
    ensures
        found(entries, n).contains(path) <==> is_named(entries.take(n as int), path),
    decreases n,
{
    let taken = entries.take(n as int);
    if n > 0 {
        let rest = entries.take(n - 1);
        lemma_found_first(entries, (n - 1) as nat, path);
        if entries[n - 1] is Built {
            let sources = entries[n - 1]->sources@;
            lemma_source_paths(sources, sources.len(), path);
            assert(sources.take(sources.len() as int) =~= sources);
        }
        if is_named(rest, path) {
            let i = choose|i: int| 0 <= i < rest.len() && names(#[trigger] rest[i], path);
            assert(names(taken[i], path));
        }
        if is_named(taken, path) {
            let i = choose|i: int| 0 <= i < taken.len() && names(#[trigger] taken[i], path);
            if i < n - 1 {
                assert(names(rest[i], path));
            }
        }
        assert(taken[n - 1] == entries[n - 1]);
    }
}

/// A path is among those to format exactly if an entry point names it.
pub proof fn lemma_named(entries: Seq<Discovered>, path: Seq<Seq<u8>>)
    ensures
        found(entries, entries.len()).contains(path) <==> is_named(entries, path),
{
    lemma_found_first(entries, entries.len(), path);
    assert(entries.take(entries.len() as int) =~= entries);
}

/// A path is among those to format exactly if some entry point is that argument,
/// or was built with it among its sources, whether the build has failed or not.
pub proof fn lemma_found(entries: Seq<Discovered>, path: Seq<Seq<u8>>)
    ensures
        found(entries, entries.len()).contains(path) <==> exists|i: int|
            0 <= i < entries.len() && match #[trigger] entries[i] {
                Discovered::Argument(argument) => argument@ == path,
                Discovered::Built { has_error, has_warning, sources } => exists|j: int|
                    0 <= j < sources@.len() && match #[trigger] sources@[j] {
                        Some(source) => source@ == path,
                        None => false,
                    },
            },
{
    lemma_named(entries, path);
    if is_named(entries, path) {
        let i = choose|i: int| 0 <= i < entries.len() && names(#[trigger] entries[i], path);
        if entries[i] is Built {
            let sources = entries[i]->sources@;
            let j = choose|j: int|
                0 <= j < sources.len() && #[trigger] sources[j] is Some && sources[j]->0@ == path;
            assert(sources[j] is Some);
        }
    }
    assert forall|i: int|
        0 <= i < entries.len() && (match #[trigger] entries[i] {
            Discovered::Argument(argument) => argument@ == path,
            Discovered::Built { has_error, has_warning, sources } => exists|j: int|
                0 <= j < sources@.len() && match #[trigger] sources@[j] {
                    Some(source) => source@ == path,
                    None => false,
                },
        }) implies is_named(entries, path) by {
        assert(names(entries[i], path));
    }
}

/// The number of builds that have failed is the number of entry points that were
/// built with an error, or with a warning if warnings are errors.
pub proof fn lemma_failures(flags: Flags, entries: Seq<Discovered>, n: nat)
    requires
        n <= entries.len(),
    ensures
        failures(flags, entries, n) == entries.take(n as int).filter(
            |entry: Discovered|
                entry is Built && (entry->has_error || (flags.warnings_are_errors
                    && entry->has_warning)),
        ).len(),
    decreases n,
{
    reveal(Seq::filter);
    if n > 0 {
        lemma_failures(flags, entries, (n - 1) as nat);
        assert(entries.take(n as int).drop_last() =~= entries.take(n - 1));
        assert(entries.take(n as int).last() == entries[n - 1]);
    }
}

/// How often an outcome came about is the number of files with that outcome.
pub proof fn lemma_counted(outcomes: Seq<Outcome>, outcome: Outcome, n: nat)
    requires
        n <= outcomes.len(),
    ensures
        occurrences(outcomes, outcome, n) == outcomes.take(n as int).filter(
            |o: Outcome| o == outcome,
        ).len(),
    decreases n,
{
    reveal(Seq::filter);
    if n > 0 {
        lemma_counted(outcomes, outcome, (n - 1) as nat);
        assert(outcomes.take(n as int).drop_last() =~= outcomes.take(n - 1));
        assert(outcomes.take(n as int).last() == outcomes[n - 1]);
    }
}

/// Text that is written to the stream.
pub open spec fn piece(color: Option<Color>, text: Seq<char>) -> PieceView {
    PieceView { target: Target::Stream, color, text }
}

/// What is decided about a file. It is changed exactly if the formatter has
/// changed it. Its name is written in yellow and with the difference behind it if
/// that is checked or more is shown, in green if it is not changed and more is
/// shown, and else nothing is.
pub proof fn lemma_decision(
    d: Decision,
    flags: Flags,
    verbose: bool,
    name: Seq<char>,
    same: bool,
    has_path: bool,
    difference: Seq<PieceView>,
)
    requires
        is_decision(d, flags, verbose, name, same, has_path, difference),
    ensures
        d.outcome == Outcome::Unchanged <==> same,
        d.outcome == Outcome::Changed <==> !same,
        d.replace <==> !same && has_path && !flags.check,
        !verbose && (same || !flags.check) ==> d.output@.len() == 0,
        same && verbose ==> d.output@ == seq![
            piece(Some(Color::Green), "== "@),
            piece(None, name + "\n"@),
        ],
        !same && (verbose || flags.check) ==> d.output@ == seq![
            piece(Some(Color::Yellow), "++ "@),
            piece(None, name + "\n"@),
        ] + difference,
{
}

/// What is written of a file that is checked does not depend on whether more is
/// shown, if it is not as it should be.
pub proof fn lemma_checked_shown(
    flags: Flags,
    verbose: bool,
    name: Seq<char>,
    difference: Seq<PieceView>,
)
    requires
        flags.check,
    ensures
        file_shown(flags, verbose, name, false, difference) == file_shown(
            flags,
            !verbose,
            name,
            false,
            difference,
        ),
        file_shown(flags, verbose, name, false, difference).len() == 2 + difference.len(),
{
}

/// A number in a colour and what it is of.
pub open spec fn counted(color: Color, n: u32, what: Seq<char>) -> Seq<PieceView> {
    seq![piece(Some(color), decimal(n as nat)), piece(None, what)]
}

/// In the end, files and builds that have failed are counted in red if there are
/// any or more is shown. If more is shown, then the files that are unchanged are
/// counted in green, and those that are changed in yellow, if there are any.
/// Then a failed check is told.
pub proof fn lemma_summary(check: bool, verbose: bool, counts: Counts)
    ensures
        ({
            let unchanged = if verbose && counts.unchanged > 0 {
                counted(Color::Green, counts.unchanged, " unchanged\n"@)
            } else {
                Seq::empty()
            };
            let changed = if verbose && counts.changed > 0 {
                counted(Color::Yellow, counts.changed, " changed\n"@)
            } else {
                Seq::empty()
            };
            let failed = if verbose || counts.failed > 0 {
                counted(Color::Red, counts.failed, " failed\n"@)
            } else {
                Seq::empty()
            };
            let builds = if verbose || counts.failed_builds > 0 {
                counted(Color::Red, counts.failed_builds, " failed builds\n"@)
            } else {
                Seq::empty()
            };
            let checked = if check && counts.changed > 0 {
                seq![
                    piece(
                        Some(Color::Red),
                        "Failure due to `--check` flag and unformatted files.\n"@,
                    ),
                ]
            } else {
                Seq::empty()
            };
            summary(check, verbose, counts) == unchanged + changed + failed + builds + checked
        }),
        // Nothing is written if nothing has failed and nothing else is asked for.
        !verbose && counts.failed == 0 && counts.failed_builds == 0 && !(check && counts.changed
            > 0) ==> summary(check, verbose, counts).len() == 0,
{
}

/// Test if two sequences are alike before an index, where the first one ends or
/// has the lower element.
pub open spec fn lower_at<T>(a: Seq<T>, b: Seq<T>, lower: spec_fn(T, T) -> bool, k: int) -> bool {
    &&& 0 <= k < b.len()
    &&& k <= a.len()
    &&& forall|j: int| 0 <= j < k ==> #[trigger] a[j] == b[j]
    &&& k == a.len() || (a[k] != b[k] && lower(a[k], b[k]))
}

/// A sequence is before another one from `i` on exactly if the first index where
/// they are different makes it so.
proof fn lemma_lower_from<T>(a: Seq<T>, b: Seq<T>, lower: spec_fn(T, T) -> bool, i: int)
    requires
        0 <= i <= a.len(),
        i <= b.len(),
        forall|j: int| 0 <= j < i ==> a[j] == b[j],
    ensures
        lower_from(a, b, lower, i) <==> exists|k: int| #[trigger] lower_at(a, b, lower, k),
    decreases b.len() - i,
{
    if i < b.len() && i < a.len() && a[i] == b[i] {
        lemma_lower_from(a, b, lower, i + 1);
    } else if i < b.len() && (i >= a.len() || lower(a[i], b[i])) {
        assert(lower_at(a, b, lower, i));
    } else {
        assert forall|k: int| !#[trigger] lower_at(a, b, lower, k) by {
            if lower_at(a, b, lower, k) {
                if k < i {
                    assert(a[k] == b[k]);
                } else if k > i {
                    assert(a[i] == b[i]);
                }
            }
        }
    }
}

/// The order of bytes.
pub open spec fn lower_byte(p: u8, q: u8) -> bool {
    p < q
}

/// Test if one component is before another one: at the first byte where they are
/// different it ends or has the lower byte.
pub open spec fn lower_component(x: Seq<u8>, y: Seq<u8>) -> bool {
    let byte = |p: u8, q: u8| lower_byte(p, q);
    exists|k: int| #[trigger] lower_at(x, y, byte, k)
}

/// A path is before another one exactly if at the first component where they are
/// different it ends or has the lower component.
pub proof fn lemma_before_first(a: Seq<Seq<u8>>, b: Seq<Seq<u8>>)
    ensures
        before(a, b) <==> ({
            let component = |x: Seq<u8>, y: Seq<u8>| lower_component(x, y);
            exists|k: int| #[trigger] lower_at(a, b, component, k)
        }),
{
    let byte = |p: u8, q: u8| lower_byte(p, q);
    let component = |x: Seq<u8>, y: Seq<u8>| lower_component(x, y);
    assert(byte_lower() =~= byte);
    assert forall|x: Seq<u8>, y: Seq<u8>| #[trigger] component_lower()(x, y) == component(
        x,
        y,
    ) by {
        lemma_lower_from(x, y, byte, 0);
    }
    assert(component_lower() =~= component);
    lemma_lower_from(a, b, component, 0);
}

/// The command fails exactly if a file or a build has failed, or a file would be
/// changed and that is checked. Files that would be changed are no failure unless
/// that is checked.
pub proof fn lemma_command_fails(check: bool, counts: Counts)
    ensures
        counts.failed > 0 ==> is_failure(check, counts),
        counts.failed_builds > 0 ==> is_failure(check, counts),
        counts.failed == 0 && counts.failed_builds == 0 && !check ==> !is_failure(check, counts),
        counts.failed == 0 && counts.failed_builds == 0 && check ==> (is_failure(check, counts)
            <==> counts.changed > 0),
{
}

} // verus!
