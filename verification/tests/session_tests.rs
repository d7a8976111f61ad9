use grader::classify::{classify_container, Container, DirEntry, ExerciseKind};
use grader::evaluate::{evaluate_cargo_project, evaluate_single_file};
use grader::outcome::CommandOutcome;
use grader::report::Aggregator;
use grader::interact::Mode;
use grader::session::{Phase, Session};

fn entry(path: &str, name: &str) -> DirEntry {
    DirEntry { path: String::from(path), name: String::from(name) }
}

fn passed() -> CommandOutcome {
    CommandOutcome::completed(true, String::new(), String::new())
}

fn failed() -> CommandOutcome {
    CommandOutcome::completed(false, String::new(), String::from("error"))
}

fn project_container(name: &str) -> Container {
    let entries = vec![entry(&format!("{}/Cargo.toml", name), "Cargo.toml")];
    classify_container(String::from(name), &entries)
}

fn single_file_container(name: &str, files: &[&str]) -> Container {
    let entries: Vec<DirEntry> = files
        .iter()
        .map(|f| entry(&format!("{}/{}", name, f), f))
        .collect();
    classify_container(String::from(name), &entries)
}

fn run_batch_session(
    containers: Vec<Container>,
    verdicts: &[bool],
    elapsed: u64,
) -> (Vec<(String, bool)>, (usize, usize, usize, u64)) {
    let mut s = Session::start(containers, Mode::Batch);
    let mut k = 0;
    while s.phase() == Phase::Iterating {
        let _unit = s.current_unit();
        s.record_unit(verdicts[k]);
        k += 1;
    }
    assert_eq!(k, verdicts.len());
    assert_eq!(s.phase(), Phase::Finalizing);
    s.finalize(elapsed);
    assert_eq!(s.phase(), Phase::Done);
    let r = s.report();
    (
        r.exercises.iter().map(|e| (e.name.clone(), e.result)).collect(),
        (
            r.statistics.total_exercises,
            r.statistics.total_succeeds,
            r.statistics.total_failures,
            r.statistics.total_time,
        ),
    )
}

#[test]
fn totals_reconcile_after_finalization() {
    let mut agg = Aggregator::new();
    agg.record(String::from("a"), true);
    agg.record(String::from("b"), false);
    agg.record(String::from("c"), true);
    agg.record(String::from("d"), false);
    agg.record(String::from("e"), false);
    agg.finalize(7);
    let r = agg.report();
    assert_eq!(r.statistics.total_exercises, 5);
    assert_eq!(r.statistics.total_succeeds, 2);
    assert_eq!(r.statistics.total_failures, 3);
    assert_eq!(
        r.statistics.total_exercises,
        r.statistics.total_succeeds + r.statistics.total_failures
    );
    assert_eq!(r.statistics.total_time, 7);
    let names: Vec<&str> = r.exercises.iter().map(|e| e.name.as_str()).collect();
    assert_eq!(names, vec!["a", "b", "c", "d", "e"]);
}

#[test]
fn batch_session_mixed_project_and_single_files() {
    // One project exercise: build passes, test passes, lint fails.
    let project_verdict = evaluate_cargo_project(&passed(), &passed(), &failed());
    // One single-file container with two files: the first compiles and runs,
    // the second fails to compile.
    let file1_verdict = evaluate_single_file(&passed(), &Some(passed()));
    let file2_verdict = evaluate_single_file(&failed(), &None);

    let containers = vec![
        project_container("exercises/proj"),
        single_file_container("exercises/loose", &["one.rs", "two.rs"]),
    ];
    let verdicts = [project_verdict, file1_verdict, file2_verdict];
    let (results, stats) = run_batch_session(containers, &verdicts, 3);

    assert_eq!(
        results,
        vec![
            (String::from("exercises/proj"), false),
            (String::from("exercises/loose/one.rs"), true),
            (String::from("exercises/loose/two.rs"), false),
        ]
    );
    assert_eq!(stats, (3, 1, 2, 3));
}

#[test]
fn session_is_deterministic_across_identical_runs() {
    let build = |_: ()| {
        vec![
            project_container("exercises/p1"),
            single_file_container("exercises/s1", &["a.rs", "b.rs"]),
            single_file_container("exercises/empty", &[]),
            project_container("exercises/p2"),
        ]
    };
    let verdicts = [true, false, true, true];
    let first = run_batch_session(build(()), &verdicts, 11);
    let second = run_batch_session(build(()), &verdicts, 11);
    assert_eq!(first, second);
}

#[test]
fn interactive_quit_truncates_only_current_container() {
    let containers = vec![
        single_file_container("exercises/first", &["a.rs", "b.rs", "c.rs"]),
        single_file_container("exercises/second", &["d.rs"]),
    ];
    let mut s = Session::start(containers, Mode::Interactive);

    assert_eq!(s.phase(), Phase::Iterating);
    let u = s.current_unit();
    assert_eq!(u.name, "exercises/first/a.rs");
    s.record_unit(true);
    assert_eq!(s.phase(), Phase::AwaitingUser);
    s.user_decision("q\n");

    // Only the remaining units of the first container were abandoned: the
    // controller proceeds to the next container.
    assert_eq!(s.phase(), Phase::Iterating);
    let u = s.current_unit();
    assert_eq!(u.name, "exercises/second/d.rs");
    s.record_unit(false);
    assert_eq!(s.phase(), Phase::AwaitingUser);
    s.user_decision("\n");

    assert_eq!(s.phase(), Phase::Finalizing);
    s.finalize(1);
    let r = s.report();
    let results: Vec<(&str, bool)> =
        r.exercises.iter().map(|e| (e.name.as_str(), e.result)).collect();
    assert_eq!(results, vec![("exercises/first/a.rs", true), ("exercises/second/d.rs", false)]);
    assert_eq!(r.statistics.total_exercises, 2);
    assert_eq!(r.statistics.total_succeeds, 1);
    assert_eq!(r.statistics.total_failures, 1);
}

#[test]
fn interactive_continue_walks_every_file() {
    let containers = vec![single_file_container("exercises/only", &["a.rs", "b.rs"])];
    let mut s = Session::start(containers, Mode::Interactive);
    s.record_unit(true);
    assert_eq!(s.phase(), Phase::AwaitingUser);
    s.user_decision("anything else\n");
    assert_eq!(s.phase(), Phase::Iterating);
    s.record_unit(true);
    assert_eq!(s.phase(), Phase::AwaitingUser);
    s.user_decision("");
    assert_eq!(s.phase(), Phase::Finalizing);
    s.finalize(0);
    assert_eq!(s.report().statistics.total_exercises, 2);
}

#[test]
fn interactive_project_units_do_not_pause() {
    let containers = vec![
        project_container("exercises/p"),
        single_file_container("exercises/s", &["a.rs"]),
    ];
    let mut s = Session::start(containers, Mode::Interactive);
    assert_eq!(s.current_unit().kind, ExerciseKind::Project);
    s.record_unit(true);
    // No pause after a project unit: the controller stands on the next unit.
    assert_eq!(s.phase(), Phase::Iterating);
    assert_eq!(s.current_unit().kind, ExerciseKind::SingleFile);
}

#[test]
fn empty_containers_yield_zero_exercises() {
    let containers = vec![
        single_file_container("exercises/e1", &[]),
        single_file_container("exercises/e2", &["readme.txt"]),
    ];
    let mut s = Session::start(containers, Mode::Batch);
    assert_eq!(s.phase(), Phase::Finalizing);
    s.finalize(2);
    let r = s.report();
    assert!(r.exercises.is_empty());
    assert_eq!(r.statistics.total_exercises, 0);
    assert_eq!(r.statistics.total_succeeds, 0);
    assert_eq!(r.statistics.total_failures, 0);
}

#[test]
fn empty_container_between_others_is_skipped() {
    let containers = vec![
        single_file_container("exercises/a", &["x.rs"]),
        single_file_container("exercises/none", &[]),
        project_container("exercises/b"),
    ];
    let verdicts = [true, true];
    let (results, stats) = run_batch_session(containers, &verdicts, 0);
    assert_eq!(
        results,
        vec![(String::from("exercises/a/x.rs"), true), (String::from("exercises/b"), true)]
    );
    assert_eq!(stats, (2, 2, 0, 0));
}
