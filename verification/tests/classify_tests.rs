use grader::classify::{classify_container, container_dirs, has_source_ext, DirEntry, ExerciseKind, RootEntry};
use grader::cleanup::{cleanup_plan, ScannedDir};
use grader::errors::{is_fatal, ErrorKind};
use grader::interact::{is_quit, parse_mode, Mode};

fn entry(path: &str, name: &str) -> DirEntry {
    DirEntry { path: String::from(path), name: String::from(name) }
}

#[test]
fn descriptor_makes_project() {
    let entries = vec![
        entry("exercises/a/src", "src"),
        entry("exercises/a/Cargo.toml", "Cargo.toml"),
    ];
    let c = classify_container(String::from("exercises/a"), &entries);
    assert_eq!(c.kind, ExerciseKind::Project);
    assert_eq!(c.name, "exercises/a");
    assert!(c.files.is_empty());
}

#[test]
fn no_descriptor_makes_single_file_set() {
    let entries = vec![
        entry("exercises/b/one.rs", "one.rs"),
        entry("exercises/b/notes.txt", "notes.txt"),
        entry("exercises/b/two.rs", "two.rs"),
    ];
    let c = classify_container(String::from("exercises/b"), &entries);
    assert_eq!(c.kind, ExerciseKind::SingleFile);
    assert_eq!(c.files, vec!["exercises/b/one.rs", "exercises/b/two.rs"]);
}

#[test]
fn empty_directory_is_single_file_with_no_units() {
    let c = classify_container(String::from("exercises/c"), &Vec::new());
    assert_eq!(c.kind, ExerciseKind::SingleFile);
    assert!(c.files.is_empty());
}

#[test]
fn source_extension_detection() {
    assert!(has_source_ext("main.rs"));
    assert!(has_source_ext("a.rs"));
    assert!(!has_source_ext(".rs"));
    assert!(!has_source_ext("main.rc"));
    assert!(!has_source_ext("mainrs"));
    assert!(!has_source_ext(""));
}

#[test]
fn mode_selector_watch_and_all() {
    assert_eq!(parse_mode("watch"), Some(Mode::Interactive));
    assert_eq!(parse_mode("all"), Some(Mode::Batch));
    assert_eq!(parse_mode("batch"), None);
    assert_eq!(parse_mode(""), None);
    assert_eq!(parse_mode("Watch"), None);
}

#[test]
fn quit_line_is_trimmed_and_case_normalized() {
    assert!(is_quit("q"));
    assert!(is_quit("Q"));
    assert!(is_quit("  q \n"));
    assert!(is_quit("\tQ\r\n"));
    assert!(!is_quit(""));
    assert!(!is_quit("   "));
    assert!(!is_quit("quit"));
    assert!(!is_quit("x"));
    assert!(!is_quit("q q"));
}

#[test]
fn quit_line_strips_all_unicode_whitespace() {
    // The quit test strips exactly what str::trim strips.
    let samples = [
        "\u{000B}q", "\u{000C}q\n", "\u{0085}q", "\u{00A0}q\u{00A0}", "\u{1680}q",
        "\u{2000}q\u{200A}", "\u{2028}q", "\u{2029}q", "\u{202F}q", "\u{205F}q", "\u{3000}Q",
    ];
    for line in samples {
        assert_eq!(is_quit(line), line.trim().to_lowercase() == "q");
        assert!(is_quit(line));
    }
    // A non-whitespace character beside the q still means continue.
    assert!(!is_quit("\u{00A0}q x"));
}

#[test]
fn quit_line_agrees_with_trim_and_lowercase() {
    let samples = [
        "q", "Q", " q ", "\tQ\r\n", "", "   ", "quit", "x", "q q", "\u{000B}", "\u{3000}",
    ];
    for line in samples {
        assert_eq!(is_quit(line), line.trim().to_lowercase() == "q");
    }
}

#[test]
fn root_scan_keeps_only_directories_in_order() {
    let entries = vec![
        RootEntry { path: String::from("exercises/alpha"), is_dir: true },
        RootEntry { path: String::from("exercises/readme.md"), is_dir: false },
        RootEntry { path: String::from("exercises/beta"), is_dir: true },
    ];
    assert_eq!(container_dirs(&entries), vec!["exercises/alpha", "exercises/beta"]);
    assert!(container_dirs(&Vec::new()).is_empty());
}

#[test]
fn only_usage_and_root_scan_errors_are_fatal() {
    assert!(is_fatal(&ErrorKind::UsageError));
    assert!(is_fatal(&ErrorKind::RootScanError));
    assert!(!is_fatal(&ErrorKind::ToolchainLaunchFailure));
    assert!(!is_fatal(&ErrorKind::ToolchainNonZeroExit));
    assert!(!is_fatal(&ErrorKind::ArtifactExecutionFailure));
    assert!(!is_fatal(&ErrorKind::CleanupFailure));
    assert!(!is_fatal(&ErrorKind::ReportWriteFailure));
}

#[test]
fn cleanup_selects_every_dir_with_artifacts_in_order() {
    let dirs = vec![
        ScannedDir { path: String::from("exercises/passed"), has_artifact_dir: true },
        ScannedDir { path: String::from("exercises/no_target"), has_artifact_dir: false },
        ScannedDir { path: String::from("exercises/failed"), has_artifact_dir: true },
    ];
    let plan = cleanup_plan(&dirs);
    assert_eq!(plan, vec!["exercises/passed", "exercises/failed"]);
}

#[test]
fn cleanup_plan_empty_when_no_artifacts() {
    let dirs = vec![ScannedDir { path: String::from("exercises/a"), has_artifact_dir: false }];
    assert!(cleanup_plan(&dirs).is_empty());
}
