use cargo_lambda::config::read_project_cargo_toml;
use cargo_lambda::docker::classify_outcome;
use cargo_lambda::error::KnownFailures;
use cargo_lambda::docker::docker_run_args;
use cargo_lambda::pipeline::{create_docker_command, Orchestrator, Task};

#[test]
fn failed_build_aborts_the_remaining_tasks() {
    let mut orchestrator = Orchestrator::new(vec![Task::Build, Task::Package]);

    assert_eq!(Some(Task::Build), orchestrator.current_task());
    // the isolated invocation exited non-zero
    let outcome = classify_outcome(false);
    orchestrator.advance(outcome);

    assert!(orchestrator.is_aborted());
    assert_eq!(None, orchestrator.current_task());
    let failure = orchestrator.into_failure().unwrap();
    assert!(matches!(failure, KnownFailures::FailedToCompile));
}

#[test]
fn successful_tasks_run_in_the_given_order() {
    let mut orchestrator = Orchestrator::new(vec![Task::Build, Task::Build, Task::Package]);

    assert_eq!(Some(Task::Build), orchestrator.current_task());
    orchestrator.advance(Ok(()));
    // the same task requested twice runs twice
    assert_eq!(Some(Task::Build), orchestrator.current_task());
    orchestrator.advance(Ok(()));
    assert_eq!(Some(Task::Package), orchestrator.current_task());
    orchestrator.advance(Ok(()));
    assert_eq!(None, orchestrator.current_task());
    assert!(!orchestrator.is_aborted());
    assert!(orchestrator.into_failure().is_none());
}

#[test]
fn lambda_task_is_a_defined_no_op() {
    let mut orchestrator = Orchestrator::new(vec![Task::Lambda, Task::Package]);
    assert_eq!(Some(Task::Lambda), orchestrator.current_task());
    // performing a no-op task never fails
    orchestrator.advance(Ok(()));
    assert_eq!(Some(Task::Package), orchestrator.current_task());
}

#[test]
fn docker_command_comes_from_the_resolved_spec() {
    let content = "[package]\nname = \"sample\"\n[lambda]\nbuild_command = \"cargo build\"\n";
    let spec = read_project_cargo_toml(content).unwrap();
    let cmd = create_docker_command(&spec, "nightly", "/work/project");
    let args = docker_run_args(&cmd, "/home/me");

    assert_eq!("ekidd/rust-musl-builder:nightly", args[11]);
    assert_eq!(
        "sudo chown -R rust:rust /home/rust/src/target && cargo build",
        args[14]
    );
    assert_eq!("/work/project:/home/rust/src", args[8]);
}
