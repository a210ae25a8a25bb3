//! Reads and resolves the deployment specification from the project's
//! metadata file.
//!
//! The metadata file is read line by line, in the Cargo manifest format:
//! `[package]` with a `name` key, repeatable `[[bin]]` sections with a `name`
//! key each, and an optional `[lambda]` section carrying the override fields.
//! Blank lines and `#` comments are skipped, and everything unrecognized —
//! other sections with all their lines, other keys with whatever value they
//! carry — is ignored, so an ordinary project manifest resolves.  Only the
//! recognized keys must carry a double-quoted string (or, for the extras
//! override, a single-line array of them), optionally followed by a `#`
//! comment; one that does not, a missing package name, or a `[[bin]]`
//! section that is never named make the file malformed.  The narrowing is
//! deliberate: recognized values use double quotes without escapes and
//! arrays on one line ([`crate::manifest`] states the full grammar).

use vstd::prelude::*;

use crate::error::KnownFailures;

verus! {

/// Stores the LambdaSpec configuration and how it should behave once deployed.
///
/// A value produced by [`read_project_cargo_toml`] is fully resolved:
/// `artifact_name`, `output_package_path` and `build_command` are all set.
#[derive(Debug)]
pub struct LambdaSpec {
    pub artifact_name: Option<String>,
    pub output_package_path: Option<String>,
    pub build_command: Option<String>,
    pub extra_artifacts: Vec<String>,
}

/// The mathematical content of a [`LambdaSpec`]: every field as a sequence
/// of characters.  Also used for the raw `[lambda]` override block while it
/// is being collected, before resolution fills the defaults in.
pub struct LambdaSpecView {
    pub artifact_name: Option<Seq<char>>,
    pub output_package_path: Option<Seq<char>>,
    pub build_command: Option<Seq<char>>,
    pub extra_artifacts: Seq<Seq<char>>,
}

/// The view of an optional string.
pub open spec fn opt_view(o: Option<String>) -> Option<Seq<char>> {
    match o {
        Option::Some(s) => Option::Some(s@),
        Option::None => Option::None,
    }
}

/// The view of a vector of strings.
pub open spec fn strings_view(v: Seq<String>) -> Seq<Seq<char>> {
    v.map_values(|s: String| s@)
}

impl View for LambdaSpec {
    type V = LambdaSpecView;

    open spec fn view(&self) -> LambdaSpecView {
        LambdaSpecView {
            artifact_name: opt_view(self.artifact_name),
            output_package_path: opt_view(self.output_package_path),
            build_command: opt_view(self.build_command),
            extra_artifacts: strings_view(self.extra_artifacts@),
        }
    }
}

/// The canonical build command, substituted when no override names one.
pub open spec fn default_command() -> Seq<char> {
    "cargo build --release"@
}

/// The canonical output directory for generated archives.
pub open spec fn default_output_path() -> Seq<char> {
    "target"@
}

/// The value of `LambdaSpec::default()`: everything unset except the
/// canonical build command.
pub open spec fn spec_default_lambda() -> LambdaSpecView {
    LambdaSpecView {
        artifact_name: Option::None,
        output_package_path: Option::None,
        build_command: Option::Some(default_command()),
        extra_artifacts: Seq::empty(),
    }
}

impl Default for LambdaSpec {
    /// A specification carrying only the canonical build command.
    fn default() -> (r: LambdaSpec)
        ensures
            r@ == spec_default_lambda(),
    {
        let r = LambdaSpec {
            artifact_name: Option::None,
            output_package_path: Option::None,
            build_command: Option::Some("cargo build --release".to_owned()),
            extra_artifacts: Vec::new(),
        };
        proof {
            assert(r@.extra_artifacts =~= spec_default_lambda().extra_artifacts);
        }
        r
    }
}

/// What the parser extracts from the metadata file: the package name, the
/// declared binary targets in declaration order, and the raw override block.
pub struct CargoToml {
    pub package_name: String,
    pub bin_names: Vec<String>,
    pub lambda: LambdaSpec,
}

/// The mathematical content of a parsed metadata file.
pub struct ManifestView {
    pub package_name: Seq<char>,
    pub bin_names: Seq<Seq<char>>,
    pub overrides: LambdaSpecView,
}

impl View for CargoToml {
    type V = ManifestView;

    open spec fn view(&self) -> ManifestView {
        ManifestView {
            package_name: self.package_name@,
            bin_names: strings_view(self.bin_names@),
            overrides: self.lambda@,
        }
    }
}

/// An override value wins only when it is present and non-empty; otherwise
/// the default stands.
pub open spec fn override_or(o: Option<Seq<char>>, dflt: Seq<char>) -> Seq<char> {
    match o {
        Option::Some(v) => if v.len() > 0 {
            v
        } else {
            dflt
        },
        Option::None => dflt,
    }
}

/// The resolved specification for a parsed metadata file:
/// the primary artifact name is the package name, never an override;
/// the extras are exactly the declared binary targets, in order and with
/// duplicates kept; command and output path fall back to the canonical
/// defaults when no non-empty override names them.
pub open spec fn spec_resolved(m: ManifestView) -> LambdaSpecView {
    LambdaSpecView {
        artifact_name: Option::Some(m.package_name),
        output_package_path: Option::Some(
            override_or(m.overrides.output_package_path, default_output_path()),
        ),
        build_command: Option::Some(override_or(m.overrides.build_command, default_command())),
        extra_artifacts: m.bin_names,
    }
}

/// Picks the override when it is present and non-empty, else the default.
fn override_or_exec(o: &Option<String>, dflt: &str) -> (r: String)
    ensures
        r@ == override_or(opt_view(*o), dflt@),
{
    match o {
        Option::Some(v) => {
            if !v.as_str().is_empty() {
                v.clone()
            } else {
                dflt.to_owned()
            }
        },
        Option::None => dflt.to_owned(),
    }
}

/// What reading a metadata file yields: the resolved specification, or a
/// configuration error exactly when the text is not a well-formed metadata
/// file.
pub open spec fn spec_read(content: Seq<char>) -> Option<LambdaSpecView> {
    match crate::manifest::spec_parse_manifest(content) {
        Option::None => Option::None,
        Option::Some(m) => Option::Some(spec_resolved(m)),
    }
}

/// Reads the deployment spec from the text of the project's metadata file.
///
/// Succeeds exactly when the text is well formed; the result is then the
/// fully resolved specification, with every field set.
pub fn read_project_cargo_toml(content: &str) -> (r: Result<LambdaSpec, KnownFailures>)
    ensures
        match spec_read(content@) {
            Option::Some(s) => r matches Ok(x) && x@ == s,
            Option::None => r matches Err(e) && e matches KnownFailures::TomlError(_),
        },
{
    match crate::manifest::parse_cargo_toml(content) {
        Err(e) => Err(e),
        Ok(manifest) => Ok(resolve_spec(manifest)),
    }
}

/// Default substitution: when the override block names no build command and
/// no output path, the resolved specification carries the canonical build
/// command and the canonical output directory.
pub proof fn lemma_default_substitution(m: ManifestView)
    requires
        m.overrides.build_command is None,
        m.overrides.output_package_path is None,
    ensures
        spec_resolved(m).build_command == Option::Some(default_command()),
        spec_resolved(m).output_package_path == Option::Some(default_output_path()),
{
}

/// Override precedence: a non-empty build command named by the override
/// block is the resolved build command, never the default.
pub proof fn lemma_override_precedence(m: ManifestView, x: Seq<char>)
    requires
        m.overrides.build_command == Option::Some(x),
        x.len() > 0,
    ensures
        spec_resolved(m).build_command == Option::Some(x),
{
}

/// Name derivation independence: the resolved primary artifact name is the
/// package name from the metadata, whatever the override block holds.
pub proof fn lemma_name_derivation_independence(m: ManifestView)
    ensures
        spec_resolved(m).artifact_name == Option::Some(m.package_name),
{
}

/// Extras ordering without deduplication: the resolved extra artifacts are
/// exactly the declared binary targets, in declaration order, duplicates
/// and clashes with the primary name kept.
pub proof fn lemma_extras_order(m: ManifestView)
    ensures
        spec_resolved(m).extra_artifacts == m.bin_names,
{
}

/// Resolution leaves no gap: whatever the metadata holds, the resolved
/// specification carries a non-empty build command and a non-empty output
/// path, and a primary artifact name is always present.
pub proof fn lemma_resolution_is_total(m: ManifestView)
    ensures
        spec_resolved(m).build_command matches Option::Some(c) && c.len() > 0,
        spec_resolved(m).output_package_path matches Option::Some(p) && p.len() > 0,
        spec_resolved(m).artifact_name is Some,
{
    reveal_strlit("cargo build --release");
    reveal_strlit("target");
}

/// Idempotent resolution: two resolutions of the same metadata text yield
/// field-wise equal specifications.
pub proof fn lemma_resolution_idempotent(content: Seq<char>, s1: LambdaSpec, s2: LambdaSpec)
    requires
        spec_read(content) == Option::Some(s1@),
        spec_read(content) == Option::Some(s2@),
    ensures
        s1@.artifact_name == s2@.artifact_name,
        s1@.output_package_path == s2@.output_package_path,
        s1@.build_command == s2@.build_command,
        s1@.extra_artifacts == s2@.extra_artifacts,
{
}

/// Merges a parsed metadata file into the fully resolved specification.
pub fn resolve_spec(manifest: CargoToml) -> (r: LambdaSpec)
    ensures
        r@ == spec_resolved(manifest@),
{
    let output = override_or_exec(&manifest.lambda.output_package_path, "target");
    let command = override_or_exec(&manifest.lambda.build_command, "cargo build --release");
    LambdaSpec {
        artifact_name: Option::Some(manifest.package_name),
        output_package_path: Option::Some(output),
        build_command: Option::Some(command),
        extra_artifacts: manifest.bin_names,
    }
}

} // verus!
