use iasql::creds::{
    credentials_of_section, parse_aws_credentials, profile_named, section_value,
    AWSCLICredentialsFile,
};
use iasql::modules::{
    expand_install, module_names, names_not_in, select_by_indices, validate_removal, Module,
    ModuleSelectionError,
};

const CREDS_INI: &str = "[default]\naws_access_key_id=AKIADEFAULT\naws_secret_access_key=secret-one\n\n[work]\naws_access_key_id=AKIAWORK\naws_secret_access_key=secret-two\n";

#[test]
fn credentials_file_parses_into_profiles() {
    let profiles = parse_aws_credentials(CREDS_INI).expect("the file should parse");
    assert_eq!(profiles.len(), 2);
    // Sections come out in ascending name order.
    assert_eq!(profiles[0].0, "default");
    assert_eq!(profiles[0].1.aws_access_key_id, "AKIADEFAULT");
    assert_eq!(profiles[1].0, "work");
    assert_eq!(profiles[1].1.aws_access_key_id, "AKIAWORK");
}

#[test]
fn default_profile_lookup() {
    let profiles = parse_aws_credentials(CREDS_INI).expect("the file should parse");
    let default = profile_named(&profiles, "default").expect("a default profile exists");
    let file = AWSCLICredentialsFile { default };
    assert_eq!(file.default.aws_access_key_id, "AKIADEFAULT");
    assert!(profile_named(&profiles, "absent").is_none());
}

#[test]
fn section_without_both_keys_fails_the_parse() {
    let partial = "[default]\naws_access_key_id=AKIAONLY\n";
    assert!(parse_aws_credentials(partial).is_none());
}

#[test]
fn section_lookup_finds_keys() {
    let pairs = vec![
        ("aws_access_key_id".to_string(), "AKIA".to_string()),
        ("aws_secret_access_key".to_string(), "sss".to_string()),
    ];
    assert_eq!(section_value(&pairs, "aws_access_key_id"), Some("AKIA".to_string()));
    assert_eq!(section_value(&pairs, "region"), None);
    let creds = credentials_of_section(&pairs).expect("both keys are bound");
    assert_eq!(creds.aws_access_key_id, "AKIA");
    assert_eq!(creds.aws_secret_access_key, "sss");
}

fn module(name: &str, deps: &[&str]) -> Module {
    Module {
        name: name.to_string(),
        dependencies: deps.iter().map(|d| d.to_string()).collect(),
    }
}

fn names(items: &[&str]) -> Vec<String> {
    items.iter().map(|s| s.to_string()).collect()
}

#[test]
fn valid_removal_passes() {
    let all = names(&["aws_ec2", "aws_rds", "aws_s3"]);
    let installed = vec![module("aws_ec2", &[]), module("aws_s3", &[])];
    let mods = names(&["aws_s3"]);
    assert!(validate_removal(&all, &installed, &mods).is_ok());
}

#[test]
fn removing_an_unknown_module_is_refused() {
    let all = names(&["aws_ec2"]);
    let installed = vec![module("aws_ec2", &[])];
    let mods = names(&["not_a_module"]);
    match validate_removal(&all, &installed, &mods) {
        Err(ModuleSelectionError::Nonexistent(m)) => assert_eq!(m, "not_a_module"),
        other => panic!("expected an unknown-name refusal, got ok={}", other.is_ok()),
    }
}

#[test]
fn removing_a_module_that_is_not_installed_is_refused() {
    let all = names(&["aws_ec2", "aws_rds"]);
    let installed = vec![module("aws_ec2", &[])];
    let mods = names(&["aws_rds"]);
    match validate_removal(&all, &installed, &mods) {
        Err(ModuleSelectionError::NotInstalled(m)) => assert_eq!(m, "aws_rds"),
        other => panic!("expected a not-installed refusal, got ok={}", other.is_ok()),
    }
}

#[test]
fn removal_that_breaks_a_dependency_is_refused() {
    let all = names(&["aws_vpc", "aws_ec2"]);
    let installed = vec![module("aws_vpc", &[]), module("aws_ec2", &["aws_vpc"])];
    let mods = names(&["aws_vpc"]);
    match validate_removal(&all, &installed, &mods) {
        Err(ModuleSelectionError::DependedOn(dependent, dependency)) => {
            assert_eq!(dependent, "aws_ec2");
            assert_eq!(dependency, "aws_vpc");
        }
        other => panic!("expected a dependency refusal, got ok={}", other.is_ok()),
    }
}

#[test]
fn removing_both_sides_of_a_dependency_is_fine() {
    let all = names(&["aws_vpc", "aws_ec2"]);
    let installed = vec![module("aws_vpc", &[]), module("aws_ec2", &["aws_vpc"])];
    let mods = names(&["aws_vpc", "aws_ec2"]);
    assert!(validate_removal(&all, &installed, &mods).is_ok());
}

#[test]
fn installation_pulls_in_missing_dependencies() {
    let all = vec![
        module("aws_vpc", &[]),
        module("aws_ec2", &["aws_vpc"]),
        module("aws_rds", &["aws_vpc"]),
    ];
    let installed = names(&[]);
    let mods = names(&["aws_ec2"]);
    let (full, added) = expand_install(&all, &installed, &mods).expect("a valid selection");
    assert_eq!(full, names(&["aws_ec2", "aws_vpc"]));
    assert_eq!(added, names(&["aws_vpc"]));
}

#[test]
fn installation_skips_dependencies_already_present() {
    let all = vec![module("aws_vpc", &[]), module("aws_ec2", &["aws_vpc"])];
    let installed = names(&["aws_vpc"]);
    let mods = names(&["aws_ec2"]);
    let (full, added) = expand_install(&all, &installed, &mods).expect("a valid selection");
    assert_eq!(full, names(&["aws_ec2"]));
    assert!(added.is_empty());
}

#[test]
fn installing_an_unknown_module_is_refused() {
    let all = vec![module("aws_vpc", &[])];
    match expand_install(&all, &names(&[]), &names(&["nope"])) {
        Err(ModuleSelectionError::Nonexistent(m)) => assert_eq!(m, "nope"),
        other => panic!("expected an unknown-name refusal, got ok={}", other.is_ok()),
    }
}

#[test]
fn installing_an_installed_module_is_refused() {
    let all = vec![module("aws_vpc", &[])];
    match expand_install(&all, &names(&["aws_vpc"]), &names(&["aws_vpc"])) {
        Err(ModuleSelectionError::AlreadyInstalled(m)) => assert_eq!(m, "aws_vpc"),
        other => panic!("expected an already-installed refusal, got ok={}", other.is_ok()),
    }
}

#[test]
fn listing_helpers() {
    let all = vec![module("aws_vpc", &[]), module("aws_ec2", &["aws_vpc"])];
    assert_eq!(module_names(&all), names(&["aws_vpc", "aws_ec2"]));

    let items = names(&["a", "b", "c", "d"]);
    assert_eq!(select_by_indices(&items, &vec![0, 2]), names(&["a", "c"]));
    assert_eq!(select_by_indices(&items, &vec![]), names(&[]));

    let excluded = names(&["b", "d"]);
    assert_eq!(names_not_in(&items, &excluded), names(&["a", "c"]));
}
