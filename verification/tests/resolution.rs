//! Candidate priority, selection, and the resolved command.

use cargo_format::resolve::{
    candidate_program, first_candidate, next_candidate, prefix_args, probe_args, resolve,
    select_candidate, CandidateKind, Environment, ResolutionError,
};

fn nightly_output() -> Option<String> {
    Some(String::from("cargo 1.80.0-nightly (abcdef 2024-01-01)"))
}

fn stable_output() -> Option<String> {
    Some(String::from("cargo 1.80.0 (abcdef 2024-01-01)"))
}

#[test]
fn empty_environment_resolves_to_no_nightly_toolchain() {
    let env = Environment {
        inherited_cargo: None,
        path_cargo: None,
        path_rustup: None,
    };
    assert_eq!(first_candidate(&env), None);
    let r = resolve(&env, &None, &None, &None, Vec::new());
    assert_eq!(r.err(), Some(ResolutionError::NoNightlyToolchainFound));
}

#[test]
fn inherited_binary_wins_when_both_binaries_probe_nightly() {
    let env = Environment {
        inherited_cargo: Some(String::from("/toolchain/bin/cargo")),
        path_cargo: Some(String::from("/usr/bin/cargo")),
        path_rustup: None,
    };
    let r = select_candidate(&env, &nightly_output(), &nightly_output(), &None);
    assert_eq!(r, Some(CandidateKind::InheritedBinary));
}

#[test]
fn path_found_binary_wins_when_inherited_probe_is_not_nightly() {
    let env = Environment {
        inherited_cargo: Some(String::from("/toolchain/bin/cargo")),
        path_cargo: Some(String::from("/usr/bin/cargo")),
        path_rustup: None,
    };
    let r = select_candidate(&env, &stable_output(), &nightly_output(), &None);
    assert_eq!(r, Some(CandidateKind::PathFoundBinary));
}

#[test]
fn manager_mediated_probe_selects_the_toolchain_manager() {
    let env = Environment {
        inherited_cargo: None,
        path_cargo: None,
        path_rustup: Some(String::from("/usr/bin/rustup")),
    };
    let out = Some(String::from("cargo 1.80.0-nightly (abcdef 2024-01-01)"));
    let r = select_candidate(&env, &None, &None, &out);
    assert_eq!(r, Some(CandidateKind::ToolchainManager));
}

#[test]
fn all_probes_failing_selects_nothing() {
    let env = Environment {
        inherited_cargo: Some(String::from("/toolchain/bin/cargo")),
        path_cargo: Some(String::from("/usr/bin/cargo")),
        path_rustup: Some(String::from("/usr/bin/rustup")),
    };
    let r = select_candidate(&env, &None, &None, &None);
    assert_eq!(r, None);
    let r = resolve(&env, &None, &stable_output(), &None, Vec::new());
    assert_eq!(r.err(), Some(ResolutionError::NoNightlyToolchainFound));
}

#[test]
fn priority_scan_walks_candidates_in_order() {
    let env = Environment {
        inherited_cargo: Some(String::from("/toolchain/bin/cargo")),
        path_cargo: Some(String::from("/usr/bin/cargo")),
        path_rustup: Some(String::from("/usr/bin/rustup")),
    };
    assert_eq!(first_candidate(&env), Some(CandidateKind::InheritedBinary));
    assert_eq!(
        next_candidate(&env, CandidateKind::InheritedBinary),
        Some(CandidateKind::PathFoundBinary)
    );
    assert_eq!(
        next_candidate(&env, CandidateKind::PathFoundBinary),
        Some(CandidateKind::ToolchainManager)
    );
    assert_eq!(next_candidate(&env, CandidateKind::ToolchainManager), None);
}

#[test]
fn priority_scan_skips_absent_candidates() {
    let env = Environment {
        inherited_cargo: None,
        path_cargo: None,
        path_rustup: Some(String::from("/usr/bin/rustup")),
    };
    assert_eq!(first_candidate(&env), Some(CandidateKind::ToolchainManager));
    let env = Environment {
        inherited_cargo: Some(String::from("/toolchain/bin/cargo")),
        path_cargo: None,
        path_rustup: Some(String::from("/usr/bin/rustup")),
    };
    assert_eq!(
        next_candidate(&env, CandidateKind::InheritedBinary),
        Some(CandidateKind::ToolchainManager)
    );
}

#[test]
fn probe_arguments_query_the_version() {
    assert_eq!(
        probe_args(CandidateKind::InheritedBinary),
        vec![String::from("--version")]
    );
    assert_eq!(
        probe_args(CandidateKind::PathFoundBinary),
        vec![String::from("--version")]
    );
    assert_eq!(
        probe_args(CandidateKind::ToolchainManager),
        vec![
            String::from("run"),
            String::from("nightly"),
            String::from("cargo"),
            String::from("--version"),
        ]
    );
}

#[test]
fn candidate_programs_come_from_the_environment() {
    let env = Environment {
        inherited_cargo: Some(String::from("/toolchain/bin/cargo")),
        path_cargo: Some(String::from("/usr/bin/cargo")),
        path_rustup: Some(String::from("/usr/bin/rustup")),
    };
    assert_eq!(
        candidate_program(&env, CandidateKind::InheritedBinary),
        String::from("/toolchain/bin/cargo")
    );
    assert_eq!(
        candidate_program(&env, CandidateKind::PathFoundBinary),
        String::from("/usr/bin/cargo")
    );
    assert_eq!(
        candidate_program(&env, CandidateKind::ToolchainManager),
        String::from("/usr/bin/rustup")
    );
    assert!(prefix_args(CandidateKind::InheritedBinary).is_empty());
    assert!(prefix_args(CandidateKind::PathFoundBinary).is_empty());
    assert_eq!(
        prefix_args(CandidateKind::ToolchainManager),
        vec![
            String::from("run"),
            String::from("nightly"),
            String::from("cargo"),
        ]
    );
}

#[test]
fn resolution_is_idempotent_under_an_unchanged_environment() {
    let env = Environment {
        inherited_cargo: None,
        path_cargo: Some(String::from("/usr/bin/cargo")),
        path_rustup: None,
    };
    let passthrough = vec![String::from("--check")];
    let a = resolve(&env, &None, &nightly_output(), &None, passthrough.clone());
    let b = resolve(&env, &None, &nightly_output(), &None, passthrough);
    let a = a.expect("first resolution should succeed");
    let b = b.expect("second resolution should succeed");
    assert_eq!(a.program, b.program);
    assert_eq!(a.prefix_args, b.prefix_args);
    assert_eq!(a.subcommand, b.subcommand);
    assert_eq!(a.passthrough_args, b.passthrough_args);
}

#[test]
fn manager_mediated_resolution_builds_the_mediated_command() {
    let env = Environment {
        inherited_cargo: None,
        path_cargo: None,
        path_rustup: Some(String::from("/usr/bin/rustup")),
    };
    let out = Some(String::from("cargo 1.80.0-nightly (abcdef 2024-01-01)"));
    let r = resolve(&env, &None, &None, &out, vec![String::from("--check")]);
    let c = r.expect("resolution should select the toolchain manager");
    assert_eq!(c.program, String::from("/usr/bin/rustup"));
    assert_eq!(
        c.prefix_args,
        vec![
            String::from("run"),
            String::from("nightly"),
            String::from("cargo"),
        ]
    );
    assert_eq!(c.subcommand, String::from("fmt"));
    assert_eq!(c.passthrough_args, vec![String::from("--check")]);
}
