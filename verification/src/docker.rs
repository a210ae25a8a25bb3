//! Composition and classification for the isolated containerized build.
//!
//! The build runs inside a fixed toolchain image; this module derives the
//! full invocation (volume mounts, image reference, in-container command),
//! the well-known directory where the toolchain deposits artifacts, and the
//! interpretation of a finished invocation: its captured output as log
//! lines, and its exit status as success or [`KnownFailures::FailedToCompile`].
//! Launching the external process itself is left to the caller.

use vstd::prelude::*;

use crate::error::KnownFailures;
use crate::manifest::{chars_vec, find_char, find_from, lemma_find_from_bounds};

verus! {

/// One isolated build invocation: where to run, what to run, and which
/// toolchain image variant to run it on.
pub struct DockerCommand {
    current_dir: String,
    command: String,
    rust_version: String,
}

/// The mathematical content of a [`DockerCommand`].
pub struct DockerCommandView {
    pub current_dir: Seq<char>,
    pub command: Seq<char>,
    pub rust_version: Seq<char>,
}

impl View for DockerCommand {
    type V = DockerCommandView;

    closed spec fn view(&self) -> DockerCommandView {
        DockerCommandView {
            current_dir: self.current_dir@,
            command: self.command@,
            rust_version: self.rust_version@,
        }
    }
}

impl DockerCommand {
    /// A command in the given working directory; the toolchain version
    /// defaults to the canonical `stable` tag when none is requested.
    pub fn new(command: String, rust_version: Option<String>, current_dir: String) -> (r:
        DockerCommand)
        ensures
            r@.command == command@,
            r@.current_dir == current_dir@,
            r@.rust_version == match rust_version {
                Option::Some(v) => v@,
                Option::None => "stable"@,
            },
    {
        let rust_version = match rust_version {
            Option::Some(v) => v,
            Option::None => "stable".to_owned(),
        };
        DockerCommand { current_dir, rust_version, command }
    }
}

/// The fixed output convention of the toolchain image: where, below the
/// working directory, the compiled binaries appear.
pub open spec fn spec_musl_output_dir() -> Seq<char> {
    "target/x86_64-unknown-linux-musl/release"@
}

/// The toolchain's output subdirectory as text.
pub fn musl_output_dir() -> (r: String)
    ensures
        r@ == spec_musl_output_dir(),
{
    "target/x86_64-unknown-linux-musl/release".to_owned()
}

/// The host directory where the isolated build deposits compiled binaries.
pub open spec fn spec_output_path(cmd: DockerCommandView) -> Seq<char> {
    cmd.current_dir + "/"@ + spec_musl_output_dir()
}

/// Extracts the output folder where the binary will be placed once the
/// build process is successfully finished.
///
/// The path depends only on the command's working directory, by design:
/// exactly one fixed toolchain-output convention is supported.
pub fn output_path(cmd: &DockerCommand) -> (r: Result<String, KnownFailures>)
    ensures
        r matches Ok(p) && p@ == spec_output_path(cmd@),
{
    let p = cmd.current_dir.clone();
    let p = p.concat("/");
    let p = p.concat("target/x86_64-unknown-linux-musl/release");
    Ok(p)
}

/// The named host-global cache volume for the toolchain's git checkouts.
pub open spec fn spec_cargo_git_volume(home: Seq<char>) -> Seq<char> {
    "cargo-git:"@ + home + "/.cargo/git"@
}

/// The named host-global cache volume for the toolchain's registry cache.
pub open spec fn spec_cargo_registry_volume(home: Seq<char>) -> Seq<char> {
    "cargo-registry:"@ + home + "/.cargo/registry"@
}

/// The bind mount of the host working directory onto the in-container
/// source path.
pub open spec fn spec_source_volume(dir: Seq<char>) -> Seq<char> {
    dir + ":/home/rust/src"@
}

/// The bind mount of the host target directory onto the in-container
/// output path.
pub open spec fn spec_target_volume(dir: Seq<char>) -> Seq<char> {
    dir + "/target:/home/rust/src/target"@
}

/// The image reference: the fixed image name plus the requested tag.
pub open spec fn spec_docker_image(version: Seq<char>) -> Seq<char> {
    "ekidd/rust-musl-builder:"@ + version
}

/// The in-container command: the mandatory ownership normalization of the
/// output directory, then the caller's build command, joined so that the
/// second runs only when the first succeeded.
pub open spec fn spec_container_command(command: Seq<char>) -> Seq<char> {
    "sudo chown -R rust:rust /home/rust/src/target && "@ + command
}

/// The program that launches the isolated environment.
pub fn docker_program() -> (r: String)
    ensures
        r@ == "docker"@,
{
    "docker".to_owned()
}

/// The full argument list of one isolated build invocation: an ephemeral
/// interactive-capable container, the two global cache volumes, the source
/// and target binds, the image reference, and a shell running the composed
/// command.
pub fn docker_run_args(cmd: &DockerCommand, home: &str) -> (r: Vec<String>)
    ensures
        r@.len() == 15,
        r@[0]@ == "run"@,
        r@[1]@ == "--rm"@,
        r@[2]@ == "-t"@,
        r@[3]@ == "-v"@,
        r@[4]@ == spec_cargo_git_volume(home@),
        r@[5]@ == "-v"@,
        r@[6]@ == spec_cargo_registry_volume(home@),
        r@[7]@ == "-v"@,
        r@[8]@ == spec_source_volume(cmd@.current_dir),
        r@[9]@ == "-v"@,
        r@[10]@ == spec_target_volume(cmd@.current_dir),
        r@[11]@ == spec_docker_image(cmd@.rust_version),
        r@[12]@ == "sh"@,
        r@[13]@ == "-c"@,
        r@[14]@ == spec_container_command(cmd@.command),
{
    let cargo_git_vol = String::from_str("cargo-git:").concat(home).concat("/.cargo/git");
    let cargo_registry_vol = String::from_str("cargo-registry:").concat(home).concat(
        "/.cargo/registry",
    );
    let source_vol = cmd.current_dir.clone().concat(":/home/rust/src");
    let target_vol = cmd.current_dir.clone().concat("/target:/home/rust/src/target");
    let docker_image = String::from_str("ekidd/rust-musl-builder:").concat(
        cmd.rust_version.as_str(),
    );
    let command = String::from_str("sudo chown -R rust:rust /home/rust/src/target && ").concat(
        cmd.command.as_str(),
    );
    let mut args: Vec<String> = Vec::new();
    args.push("run".to_owned());
    args.push("--rm".to_owned());
    args.push("-t".to_owned());
    args.push("-v".to_owned());
    args.push(cargo_git_vol);
    args.push("-v".to_owned());
    args.push(cargo_registry_vol);
    args.push("-v".to_owned());
    args.push(source_vol);
    args.push("-v".to_owned());
    args.push(target_vol);
    args.push(docker_image);
    args.push("sh".to_owned());
    args.push("-c".to_owned());
    args.push(command);
    args
}

/// The result of one isolated build invocation: the exit classification and
/// the raw captured streams.
pub struct BuildOutcome {
    /// Whether the external process exited with status zero.
    pub success: bool,
    /// The raw bytes captured from the process's standard output.
    pub stdout: Vec<u8>,
    /// The raw bytes captured from the process's standard error.
    pub stderr: Vec<u8>,
}

/// What the permissive UTF-8 decoding of a byte stream yields.  The result
/// depends on the bytes alone; invalid sequences never fail the decoding.
pub uninterp spec fn lossy_utf8(bytes: Seq<u8>) -> Seq<char>;

/// Relies on `String::from_utf8_lossy`: decodes a byte stream as UTF-8,
/// replacing invalid sequences with the replacement character instead of
/// failing; the result is a function of the bytes alone, and empty input
/// decodes to the empty string.
#[verifier::external_body]
fn lossy_decode(bytes: &Vec<u8>) -> (r: String)
    ensures
        r@ == lossy_utf8(bytes@),
        bytes@.len() == 0 ==> r@.len() == 0,
{
    String::from_utf8_lossy(bytes.as_slice()).into_owned()
}

/// The lines of a decoded stream, split as a terminal log is: at each
/// newline, with a carriage return directly before it removed, and without
/// a final empty line after a trailing newline.
pub open spec fn spec_log_lines(s: Seq<char>, i: int) -> Seq<Seq<char>>
    decreases s.len() - i when 0 <= i <= s.len() via spec_log_lines_dec
{
    if i >= s.len() {
        Seq::empty()
    } else {
        let j = find_from(s, i, s.len() as int, '\n');
        let line = if j < s.len() && j > i && s[j - 1] == '\r' {
            s.subrange(i, j - 1)
        } else {
            s.subrange(i, j)
        };
        if j < s.len() {
            seq![line] + spec_log_lines(s, j + 1)
        } else {
            seq![line]
        }
    }
}

#[via_fn]
proof fn spec_log_lines_dec(s: Seq<char>, i: int) {
    if 0 <= i < s.len() {
        lemma_find_from_bounds(s, i, s.len() as int, '\n');
    }
}

/// Splits the decoded text into its log lines, starting at `i`.
fn split_lines(doc: &str, v: &Vec<char>, i: usize) -> (r: Vec<String>)
    requires
        v@ == doc@,
        i <= v.len(),
    ensures
        crate::config::strings_view(r@) == spec_log_lines(v@, i as int),
    decreases v.len() - i,
{
    if i >= v.len() {
        let r: Vec<String> = Vec::new();
        proof {
            assert(crate::config::strings_view(r@) =~= spec_log_lines(v@, i as int));
        }
        return r;
    }
    let j = find_char(v, i, v.len(), '\n');
    let line = if j < v.len() && j > i && v[j - 1] == '\r' {
        doc.substring_char(i, j - 1).to_owned()
    } else {
        doc.substring_char(i, j).to_owned()
    };
    let mut out: Vec<String> = Vec::new();
    out.push(line);
    if j < v.len() {
        let mut rest = split_lines(doc, v, j + 1);
        out.append(&mut rest);
        proof {
            assert(crate::config::strings_view(out@) =~= spec_log_lines(v@, i as int));
        }
    } else {
        proof {
            assert(crate::config::strings_view(out@) =~= spec_log_lines(v@, i as int));
        }
    }
    out
}

/// Decodes one captured stream permissively and splits it into log lines.
pub fn log_lines(output: &Vec<u8>) -> (r: Vec<String>)
    ensures
        crate::config::strings_view(r@) == spec_log_lines(lossy_utf8(output@), 0),
{
    let decoded = lossy_decode(output);
    let v = chars_vec(decoded.as_str());
    split_lines(decoded.as_str(), &v, 0)
}

/// The log lines of a whole invocation, in capture order: the standard
/// output's lines, then the standard error's.
pub fn outcome_log_lines(outcome: &BuildOutcome) -> (r: Vec<String>)
    ensures
        crate::config::strings_view(r@) == spec_log_lines(lossy_utf8(outcome.stdout@), 0)
            + spec_log_lines(lossy_utf8(outcome.stderr@), 0),
{
    let mut out = log_lines(&outcome.stdout);
    let mut err = log_lines(&outcome.stderr);
    let ghost out_view = crate::config::strings_view(out@);
    let ghost err_view = crate::config::strings_view(err@);
    out.append(&mut err);
    proof {
        assert(crate::config::strings_view(out@) =~= out_view + err_view);
    }
    out
}

/// What the exit status of an invocation means: zero is success, anything
/// else failed to compile.  No output-content inspection occurs.
pub open spec fn spec_classify(success: bool) -> Result<(), KnownFailures> {
    if success {
        Result::Ok(())
    } else {
        Result::Err(KnownFailures::FailedToCompile)
    }
}

/// Classifies an invocation by its exit status alone: zero means success,
/// anything else means the build failed to compile.
pub fn classify_outcome(success: bool) -> (r: Result<(), KnownFailures>)
    ensures
        r == spec_classify(success),
        r is Ok <==> success,
{
    if success {
        Ok(())
    } else {
        Err(KnownFailures::FailedToCompile)
    }
}

} // verus!
