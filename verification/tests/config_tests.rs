use cargo_lambda::config::{read_project_cargo_toml, LambdaSpec};
use cargo_lambda::error::KnownFailures;

#[test]
fn should_read_minimalist_file() {
    let content = "[package]\nname = \"sample\"\n";
    let lambda_spec = read_project_cargo_toml(content).unwrap();

    assert_eq!("sample", lambda_spec.artifact_name.unwrap());
    assert_eq!("target", lambda_spec.output_package_path.unwrap());
    assert_eq!("cargo build --release", &lambda_spec.build_command.unwrap());
}

#[test]
fn should_read_complex_file() {
    let content = "[package]\nname = \"hello-world\"\n\n[lambda]\noutput_package_path = \"hello-world.zip\"\nbuild_command = \"cargo build\"\n";
    let lambda_spec = read_project_cargo_toml(content).unwrap();

    assert_eq!("hello-world", lambda_spec.artifact_name.unwrap());
    assert_eq!("hello-world.zip", lambda_spec.output_package_path.unwrap());
    assert_eq!("cargo build", &lambda_spec.build_command.unwrap());
}

#[test]
fn default_substitution_with_empty_override_block() {
    let content = "[package]\nname = \"sample\"\n[lambda]\n";
    let lambda_spec = read_project_cargo_toml(content).unwrap();

    assert_eq!("cargo build --release", lambda_spec.build_command.unwrap());
    assert_eq!("target", lambda_spec.output_package_path.unwrap());
}

#[test]
fn empty_override_values_fall_back_to_defaults() {
    let content =
        "[package]\nname = \"sample\"\n[lambda]\nbuild_command = \"\"\noutput_package_path = \"\"\n";
    let lambda_spec = read_project_cargo_toml(content).unwrap();

    assert_eq!("cargo build --release", lambda_spec.build_command.unwrap());
    assert_eq!("target", lambda_spec.output_package_path.unwrap());
}

#[test]
fn override_precedence_for_build_command() {
    let content = "[package]\nname = \"sample\"\n[lambda]\nbuild_command = \"X\"\n";
    let lambda_spec = read_project_cargo_toml(content).unwrap();

    assert_eq!("X", lambda_spec.build_command.unwrap());
}

#[test]
fn artifact_name_ignores_override_block() {
    let content = "[package]\nname = \"sample\"\n[lambda]\nartifact_name = \"unrelated\"\nbuild_command = \"make\"\n";
    let lambda_spec = read_project_cargo_toml(content).unwrap();

    assert_eq!("sample", lambda_spec.artifact_name.unwrap());
    assert_eq!("make", lambda_spec.build_command.unwrap());
}

#[test]
fn extras_keep_order_and_duplicates() {
    let content = "[package]\nname = \"sample\"\n[[bin]]\nname = \"a\"\n[[bin]]\nname = \"b\"\n[[bin]]\nname = \"a\"\n";
    let lambda_spec = read_project_cargo_toml(content).unwrap();

    assert_eq!(vec!["a".to_string(), "b".to_string(), "a".to_string()], lambda_spec.extra_artifacts);
}

#[test]
fn bin_target_sharing_package_name_is_kept() {
    let content = "[package]\nname = \"sample\"\n[[bin]]\nname = \"sample\"\n";
    let lambda_spec = read_project_cargo_toml(content).unwrap();

    assert_eq!("sample", lambda_spec.artifact_name.unwrap());
    assert_eq!(vec!["sample".to_string()], lambda_spec.extra_artifacts);
}

#[test]
fn idempotent_resolution() {
    let content = "[package]\nname = \"sample\"\n[[bin]]\nname = \"a\"\n[lambda]\nbuild_command = \"cargo build\"\n";
    let first = read_project_cargo_toml(content).unwrap();
    let second = read_project_cargo_toml(content).unwrap();

    assert_eq!(first.artifact_name, second.artifact_name);
    assert_eq!(first.output_package_path, second.output_package_path);
    assert_eq!(first.build_command, second.build_command);
    assert_eq!(first.extra_artifacts, second.extra_artifacts);
}

#[test]
fn end_to_end_example() {
    let content = "[package]\nname = \"hello-world\"\n[lambda]\nbuild_command = \"cargo build\"\noutput_package_path = \"hello-world.zip\"\n";
    let lambda_spec = read_project_cargo_toml(content).unwrap();

    assert_eq!("hello-world", lambda_spec.artifact_name.unwrap());
    assert!(lambda_spec.extra_artifacts.is_empty());
    assert_eq!("cargo build", lambda_spec.build_command.unwrap());
    assert_eq!("hello-world.zip", lambda_spec.output_package_path.unwrap());
}

#[test]
fn unknown_sections_and_keys_are_ignored() {
    let content = "# a comment\nversion = \"1.0\"\n[package]\nname = \"sample\"\nedition = \"2018\"\n[dependencies]\nserde = \"1\"\n[lambda]\nnot_a_field = \"x\"\n";
    let lambda_spec = read_project_cargo_toml(content).unwrap();

    assert_eq!("sample", lambda_spec.artifact_name.unwrap());
    assert!(lambda_spec.extra_artifacts.is_empty());
}

#[test]
fn extra_artifacts_override_array_is_parsed() {
    let content = "[package]\nname = \"sample\"\n[lambda]\nextra_artifacts = [\"one\", \"two, three\"]\n";
    let lambda_spec = read_project_cargo_toml(content).unwrap();

    // the override array is recognized, but resolution takes the extras
    // from the declared binary targets, of which there are none
    assert!(lambda_spec.extra_artifacts.is_empty());
    assert_eq!("sample", lambda_spec.artifact_name.unwrap());
}

#[test]
fn windows_line_endings_are_accepted() {
    let content = "[package]\r\nname = \"sample\"\r\n[lambda]\r\nbuild_command = \"make\"\r\n";
    let lambda_spec = read_project_cargo_toml(content).unwrap();
    assert_eq!("sample", lambda_spec.artifact_name.unwrap());
    assert_eq!("make", lambda_spec.build_command.unwrap());
}

#[test]
fn whitespace_around_keys_and_values_is_trimmed() {
    let content = "  [package]  \n\tname\t=   \"sample\"   \n";
    let lambda_spec = read_project_cargo_toml(content).unwrap();
    assert_eq!("sample", lambda_spec.artifact_name.unwrap());
}

#[test]
fn trailing_comments_after_recognized_values_are_accepted() {
    let content = "[package]\nname = \"sample\" # the package name\n[lambda]\nbuild_command = \"make\"   # overridden\nextra_artifacts = [\"one\"] # unused by resolution\n";
    let lambda_spec = read_project_cargo_toml(content).unwrap();
    assert_eq!("sample", lambda_spec.artifact_name.unwrap());
    assert_eq!("make", lambda_spec.build_command.unwrap());
}

#[test]
fn trailing_junk_after_a_recognized_value_is_a_toml_error() {
    let content = "[package]\nname = \"a\" \"b\"\n";
    let err = read_project_cargo_toml(content).unwrap_err();
    assert!(matches!(err, KnownFailures::TomlError(_)));
}

#[test]
fn quoted_brackets_inside_arrays_are_kept() {
    let content = "[package]\nname = \"sample\"\n[lambda]\nextra_artifacts = [\"a]b\", \"c\"] # closing bracket inside quotes\n";
    let lambda_spec = read_project_cargo_toml(content).unwrap();
    assert_eq!("sample", lambda_spec.artifact_name.unwrap());
}

#[test]
fn malformed_line_is_a_toml_error() {
    let content = "[package]\nname = unquoted\n";
    let err = read_project_cargo_toml(content).unwrap_err();
    assert!(matches!(err, KnownFailures::TomlError(_)));
}

#[test]
fn ordinary_manifest_content_is_tolerated() {
    let content = "[package]\nname = \"sample\"\nversion = \"0.1.0\"\npublish = false\nauthors = [\n    \"someone <someone@example.com>\",\n]\ndescription = \"\"\"\na longer text\n\"\"\"\n\n[dependencies]\nserde = { version = \"1\", features = [\"derive\"] }\nzip = \"0.5\"\n\n[lambda]\nbuild_command = \"cargo build\"\n";
    let lambda_spec = read_project_cargo_toml(content).unwrap();

    assert_eq!("sample", lambda_spec.artifact_name.unwrap());
    assert_eq!("cargo build", lambda_spec.build_command.unwrap());
    assert_eq!("target", lambda_spec.output_package_path.unwrap());
    assert!(lambda_spec.extra_artifacts.is_empty());
}

#[test]
fn lines_without_a_key_are_ignored() {
    let content = "just some words\n[package]\nname = \"sample\"\nkeywords = [\n\"k\",\n]\n";
    let lambda_spec = read_project_cargo_toml(content).unwrap();
    assert_eq!("sample", lambda_spec.artifact_name.unwrap());
}

#[test]
fn unterminated_string_is_a_toml_error() {
    let content = "[package]\nname = \"sample\n";
    let err = read_project_cargo_toml(content).unwrap_err();
    assert!(matches!(err, KnownFailures::TomlError(_)));
}

#[test]
fn missing_package_name_is_a_toml_error() {
    let content = "[lambda]\nbuild_command = \"cargo build\"\n";
    let err = read_project_cargo_toml(content).unwrap_err();
    assert!(matches!(err, KnownFailures::TomlError(_)));
}

#[test]
fn unnamed_bin_target_is_a_toml_error() {
    let content = "[package]\nname = \"sample\"\n[[bin]]\npath = \"src/other.rs\"\n";
    let err = read_project_cargo_toml(content).unwrap_err();
    assert!(matches!(err, KnownFailures::TomlError(_)));
}

#[test]
fn wrong_value_shape_for_name_is_a_toml_error() {
    let content = "[package]\nname = [\"sample\"]\n";
    let err = read_project_cargo_toml(content).unwrap_err();
    assert!(matches!(err, KnownFailures::TomlError(_)));
}

#[test]
fn default_spec_carries_canonical_command() {
    let spec = LambdaSpec::default();
    assert!(spec.artifact_name.is_none());
    assert!(spec.output_package_path.is_none());
    assert_eq!("cargo build --release", spec.build_command.unwrap());
    assert!(spec.extra_artifacts.is_empty());
}
