use rune::cli::diff::{diff, show, Change, ChangeTag};
use rune::cli::format::{
    count, decide, decide_with, discover, finish, Counts, Discovered, Flags, Outcome, SharedFlags,
};
use rune::cli::paths::{Path, PathSet};
use rune::cli::{AssetKind, Color, ExitCode, Output, Piece, Target};

fn flags(check: bool, warnings_are_errors: bool) -> Flags {
    Flags { warnings_are_errors, check, fmt_path: Vec::new() }
}

fn shared(verbose: bool) -> SharedFlags {
    SharedFlags { verbose, warnings: false }
}

fn path(components: &[&str]) -> Path {
    Path { components: components.iter().map(|c| c.as_bytes().to_vec()).collect() }
}

fn colored(color: Color, text: &str) -> Piece {
    Piece { target: Target::Stream, color: Some(color), text: text.to_string() }
}

fn plain(text: &str) -> Piece {
    Piece { target: Target::Stream, color: None, text: text.to_string() }
}

#[test]
fn format_command_works_on_everything() {
    let flags = flags(false, false);
    assert!(flags.is_workspace(AssetKind::Bin));
    assert!(flags.is_workspace(AssetKind::Bench));
    assert_eq!(flags.describe(), "Formatting");
    assert!(flags.paths().is_empty());
    assert!(!flags.gathers_warnings(&shared(true)));
    assert!(flags.gathers_warnings(&SharedFlags { verbose: false, warnings: true }));
}

#[test]
fn paths_are_ordered_by_their_components() {
    let mut set = PathSet::new();
    set.insert(path(&["a-b"]));
    set.insert(path(&["a", "b"]));
    set.insert(path(&["a"]));
    set.insert(path(&["a", "b"]));
    assert_eq!(set.paths, vec![path(&["a"]), path(&["a", "b"]), path(&["a-b"])]);
}

#[test]
fn entries_are_discovered() {
    let entries = vec![
        Discovered::Argument(path(&["z"])),
        Discovered::Built {
            has_error: false,
            has_warning: true,
            sources: vec![Some(path(&["b"])), None, Some(path(&["a"]))],
        },
        Discovered::Built { has_error: true, has_warning: false, sources: vec![] },
    ];
    let found = discover(&flags(false, false), &entries);
    assert_eq!(found.paths.paths, vec![path(&["a"]), path(&["b"]), path(&["z"])]);
    assert_eq!(found.failed_builds, 1);
    assert_eq!(discover(&flags(false, true), &entries).failed_builds, 2);
}

#[test]
fn unchanged_files_are_left_alone() {
    let text = "fn main() {}\n".to_string();
    let d = decide(&flags(false, false), &shared(true), "main", &text, &text, true);
    assert_eq!(d.outcome, Outcome::Unchanged);
    assert!(!d.replace);
    assert_eq!(d.output.pieces, vec![colored(Color::Green, "== "), plain("main\n")]);
    let d = decide(&flags(true, false), &shared(false), "main", &text, &text, true);
    assert!(d.output.pieces.is_empty());
}

#[test]
fn changed_files_are_replaced_unless_checked() {
    let source = "a\nb\n".to_string();
    let formatted = "a\nc\n".to_string();
    let d = decide(&flags(false, false), &shared(false), "main", &source, &formatted, true);
    assert_eq!(d.outcome, Outcome::Changed);
    assert!(d.replace);
    assert!(d.output.pieces.is_empty());
    let d = decide(&flags(false, false), &shared(false), "main", &source, &formatted, false);
    assert!(!d.replace);
    let d = decide(&flags(true, false), &shared(false), "main", &source, &formatted, true);
    assert!(!d.replace);
    assert_eq!(
        d.output.pieces,
        vec![
            colored(Color::Yellow, "++ "),
            plain("main\n"),
            colored(Color::Dim, "1    a\n"),
            colored(Color::Red, "2   -b\n"),
            colored(Color::Green, "    +c\n"),
        ]
    );
    let mut difference = Output::new();
    difference.plain("difference".to_string());
    let d = decide_with(&flags(false, false), &shared(true), "main", false, true, difference);
    assert!(d.replace);
    assert_eq!(d.output.pieces.len(), 3);
}

#[test]
fn groups_of_changes_are_separated() {
    let lines: Vec<String> = (0..20).map(|n| format!("line {}\n", n)).collect();
    let source: String = lines.concat();
    let changed = source.replace("line 2\n", "").replace("line 17\n", "other\n");
    let pieces = diff(&source, &changed).pieces;
    let text = format!("{}\n", "-".repeat(80));
    assert!(!pieces.contains(&plain(&text)));
    let separator = Piece { target: Target::Process, color: None, text };
    assert_eq!(pieces.iter().filter(|p| **p == separator).count(), 1);
    assert!(pieces.contains(&colored(Color::Red, "3   -line 2\n")));
    assert!(pieces.contains(&colored(Color::Red, "18  -line 17\n")));
    assert!(pieces.contains(&colored(Color::Green, "    +other\n")));
    assert!(!pieces.contains(&colored(Color::Dim, "10   line 9\n")));
    assert!(diff("same\n", "same\n").pieces.is_empty());
}

#[test]
fn lines_without_newline_get_one() {
    let change = |tag, old_index, text: &str, missing_newline| Change {
        tag,
        old_index,
        text: text.to_string(),
        missing_newline,
    };
    let group = vec![vec![
        change(ChangeTag::Delete, Some(9998), "old", true),
        change(ChangeTag::Insert, None, "new", true),
        change(ChangeTag::Equal, Some(12344), "same\n", false),
    ]];
    assert_eq!(
        show(&vec![group]).pieces,
        vec![
            colored(Color::Red, "9999-old"),
            plain("\n"),
            colored(Color::Green, "    +new"),
            plain("\n"),
            colored(Color::Dim, "12345 same\n"),
        ]
    );
    let pieces = diff("a", "b").pieces;
    assert_eq!(
        pieces,
        vec![
            colored(Color::Red, "1   -a"),
            plain("\n"),
            colored(Color::Green, "    +b"),
            plain("\n"),
        ]
    );
}

#[test]
fn outcomes_are_counted() {
    let outcomes =
        vec![Outcome::Changed, Outcome::Failed, Outcome::Unchanged, Outcome::Changed];
    let counts = count(&outcomes, 5);
    assert_eq!(counts, Counts { changed: 2, failed: 1, unchanged: 1, failed_builds: 5 });
}

#[test]
fn summary_tells_what_has_failed() {
    let counts = Counts { changed: 2, failed: 1, unchanged: 3, failed_builds: 4 };
    let (output, exit) = finish(&flags(true, false), &shared(true), &counts);
    assert_eq!(exit, ExitCode::Failure);
    assert_eq!(
        output.pieces,
        vec![
            colored(Color::Green, "3"),
            plain(" unchanged\n"),
            colored(Color::Yellow, "2"),
            plain(" changed\n"),
            colored(Color::Red, "1"),
            plain(" failed\n"),
            colored(Color::Red, "4"),
            plain(" failed builds\n"),
            colored(Color::Red, "Failure due to `--check` flag and unformatted files.\n"),
        ]
    );
}

#[test]
fn changes_fail_only_if_they_are_checked() {
    let counts = Counts { changed: 1, failed: 0, unchanged: 1, failed_builds: 0 };
    let (output, exit) = finish(&flags(false, false), &shared(false), &counts);
    assert!(output.pieces.is_empty());
    assert_eq!(exit, ExitCode::Success);
    assert_eq!(finish(&flags(true, false), &shared(false), &counts).1, ExitCode::Failure);
    let counts = Counts { changed: 0, failed: 0, unchanged: 0, failed_builds: 1 };
    let (output, exit) = finish(&flags(false, false), &shared(false), &counts);
    assert_eq!(output.pieces, vec![colored(Color::Red, "1"), plain(" failed builds\n")]);
    assert_eq!(exit, ExitCode::Failure);
    let counts = Counts { changed: 0, failed: 1, unchanged: 0, failed_builds: 0 };
    assert_eq!(finish(&flags(false, false), &shared(false), &counts).1, ExitCode::Failure);
}
