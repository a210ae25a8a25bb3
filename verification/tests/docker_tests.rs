use cargo_lambda::docker::{
    classify_outcome, docker_program, docker_run_args, log_lines, musl_output_dir, outcome_log_lines,
    output_path, BuildOutcome, DockerCommand,
};
use cargo_lambda::error::KnownFailures;

#[test]
fn docker_invocation_is_fully_composed() {
    let cmd = DockerCommand::new(
        "cargo build --release".to_string(),
        Some("1.40.0".to_string()),
        "/work/project".to_string(),
    );
    let args = docker_run_args(&cmd, "/home/me");

    assert_eq!("docker", docker_program());
    assert_eq!(15, args.len());
    assert_eq!("run", args[0]);
    assert_eq!("--rm", args[1]);
    assert_eq!("-t", args[2]);
    assert_eq!("-v", args[3]);
    assert_eq!("cargo-git:/home/me/.cargo/git", args[4]);
    assert_eq!("-v", args[5]);
    assert_eq!("cargo-registry:/home/me/.cargo/registry", args[6]);
    assert_eq!("-v", args[7]);
    assert_eq!("/work/project:/home/rust/src", args[8]);
    assert_eq!("-v", args[9]);
    assert_eq!("/work/project/target:/home/rust/src/target", args[10]);
    assert_eq!("ekidd/rust-musl-builder:1.40.0", args[11]);
    assert_eq!("sh", args[12]);
    assert_eq!("-c", args[13]);
    assert_eq!(
        "sudo chown -R rust:rust /home/rust/src/target && cargo build --release",
        args[14]
    );
}

#[test]
fn rust_version_defaults_to_stable() {
    let cmd = DockerCommand::new("cargo help".to_string(), None, "/work".to_string());
    let args = docker_run_args(&cmd, "/home/me");
    assert_eq!("ekidd/rust-musl-builder:stable", args[11]);
}

#[test]
fn output_path_follows_the_musl_convention() {
    let cmd = DockerCommand::new("cargo build".to_string(), None, "/work/project".to_string());
    assert_eq!("target/x86_64-unknown-linux-musl/release", musl_output_dir());
    assert_eq!(
        "/work/project/target/x86_64-unknown-linux-musl/release",
        output_path(&cmd).unwrap()
    );
}

#[test]
fn log_lines_split_at_newlines() {
    let bytes = b"line one\nline two\r\nlast".to_vec();
    let lines = log_lines(&bytes);
    assert_eq!(vec!["line one".to_string(), "line two".to_string(), "last".to_string()], lines);
}

#[test]
fn log_lines_replace_invalid_utf8() {
    let bytes = vec![0xff, b'a'];
    let lines = log_lines(&bytes);
    assert_eq!(vec!["\u{fffd}a".to_string()], lines);
}

#[test]
fn outcome_log_lines_keep_capture_order() {
    let outcome = BuildOutcome {
        success: false,
        stdout: b"compiling\ndone\n".to_vec(),
        stderr: b"warning: something\n".to_vec(),
    };
    let lines = outcome_log_lines(&outcome);
    assert_eq!(
        vec!["compiling".to_string(), "done".to_string(), "warning: something".to_string()],
        lines
    );
}

#[test]
fn zero_exit_is_success() {
    assert!(classify_outcome(true).is_ok());
}

#[test]
fn non_zero_exit_fails_to_compile() {
    let err = classify_outcome(false).unwrap_err();
    assert!(matches!(err, KnownFailures::FailedToCompile));
    assert_eq!("Failed to build or compile your software", err.message());
}

#[test]
fn error_messages_carry_their_detail() {
    assert_eq!("boom", KnownFailures::IOError("boom".to_string()).message());
    assert_eq!("zip broke", KnownFailures::ZipCompressionError("zip broke".to_string()).message());
    assert_eq!("bad text", KnownFailures::Utf8Error("bad text".to_string()).message());
    assert_eq!("bad file", KnownFailures::TomlError("bad file".to_string()).message());
}
