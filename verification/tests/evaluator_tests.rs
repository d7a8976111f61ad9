use grader::evaluate::{evaluate_cargo_project, evaluate_single_file, needs_artifact_run};
use grader::outcome::CommandOutcome;

fn passed() -> CommandOutcome {
    CommandOutcome::completed(true, String::new(), String::new())
}

fn failed() -> CommandOutcome {
    CommandOutcome::completed(false, String::new(), String::from("error"))
}

#[test]
fn project_verdict_all_pass() {
    assert_eq!(evaluate_cargo_project(&passed(), &passed(), &passed()), true);
}

#[test]
fn project_verdict_any_fail() {
    assert_eq!(evaluate_cargo_project(&failed(), &passed(), &passed()), false);
    assert_eq!(evaluate_cargo_project(&passed(), &failed(), &passed()), false);
    assert_eq!(evaluate_cargo_project(&passed(), &passed(), &failed()), false);
    assert_eq!(evaluate_cargo_project(&failed(), &failed(), &failed()), false);
}

#[test]
fn project_verdict_launch_failure_counts_as_failure() {
    let missing = CommandOutcome::launch_failed(String::from("executable not found"));
    assert_eq!(evaluate_cargo_project(&missing, &passed(), &passed()), false);
}

#[test]
fn single_file_both_steps_pass() {
    assert_eq!(evaluate_single_file(&passed(), &Some(passed())), true);
}

#[test]
fn single_file_run_fails() {
    assert_eq!(evaluate_single_file(&passed(), &Some(failed())), false);
}

#[test]
fn failed_compile_skips_run_and_fails() {
    let compile = failed();
    assert_eq!(needs_artifact_run(&compile), false);
    assert_eq!(evaluate_single_file(&compile, &None), false);
}

#[test]
fn successful_compile_requests_run() {
    assert_eq!(needs_artifact_run(&passed()), true);
}

#[test]
fn launch_failed_outcome_is_failure_with_empty_streams() {
    let o = CommandOutcome::launch_failed(String::from("no such file"));
    assert_eq!(o.success, false);
    assert_eq!(o.stdout, "");
    assert_eq!(o.stderr, "");
    assert_eq!(o.launch_failure.as_deref(), Some("no such file"));
}

#[test]
fn completed_outcome_keeps_streams() {
    let o = CommandOutcome::completed(true, String::from("out"), String::from("err"));
    assert_eq!(o.success, true);
    assert_eq!(o.stdout, "out");
    assert_eq!(o.stderr, "err");
    assert!(o.launch_failure.is_none());
}
