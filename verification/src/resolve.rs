//! Toolchain resolution: the ordered candidate list, the priority among
//! candidates, and the choice of the one that runs the formatter.
//!
//! Three candidates are considered, in this fixed priority order:
//!
//! 1. the inherited binary: the build tool's own path, handed down in the
//!    environment when this program runs as its subcommand;
//! 2. the path-found binary: a `cargo` found on the executable search
//!    path;
//! 3. the toolchain-manager-mediated invocation: a `rustup` found on the
//!    search path, told to run the nightly toolchain's `cargo`.
//!
//! Each candidate is probed with a version query; the first whose probe
//! reports nightly wins and later candidates are never probed. When no
//! candidate probes nightly, resolution fails: the environment lacks the
//! required toolchain.

use crate::nightly::probe_nightly;
use crate::nightly::probe_reports_nightly;
use vstd::prelude::*;

verus! {

/// A way to invoke the nightly formatter, in priority order.
#[derive(Clone, Copy, Debug, PartialEq, Eq, Structural)]
pub enum CandidateKind {
    /// The build tool's own binary, inherited through the environment.
    InheritedBinary,
    /// A binary found on the executable search path.
    PathFoundBinary,
    /// A toolchain manager told to run the nightly toolchain's tool.
    ToolchainManager,
}

/// Why resolution failed.
#[derive(Clone, Copy, Debug, PartialEq, Eq, Structural)]
pub enum ResolutionError {
    /// Every candidate was probed and none reported a nightly toolchain.
    NoNightlyToolchainFound,
}

/// What resolution reads of the process environment and the filesystem:
/// each candidate's program, where the candidate exists at all.
pub struct Environment {
    /// The build tool's self-identifying path variable, when set.
    pub inherited_cargo: Option<String>,
    /// An executable-path search for `cargo`, when it succeeded.
    pub path_cargo: Option<String>,
    /// An executable-path search for `rustup`, when it succeeded.
    pub path_rustup: Option<String>,
}

/// The candidate exists in this environment.
pub open spec fn has_candidate(env: Environment, kind: CandidateKind) -> bool {
    match kind {
        CandidateKind::InheritedBinary => env.inherited_cargo is Some,
        CandidateKind::PathFoundBinary => env.path_cargo is Some,
        CandidateKind::ToolchainManager => env.path_rustup is Some,
    }
}

/// The program a candidate executes.
pub open spec fn spec_program(env: Environment, kind: CandidateKind) -> Seq<char> {
    match kind {
        CandidateKind::InheritedBinary => match env.inherited_cargo {
            Some(p) => p@,
            None => Seq::empty(),
        },
        CandidateKind::PathFoundBinary => match env.path_cargo {
            Some(p) => p@,
            None => Seq::empty(),
        },
        CandidateKind::ToolchainManager => match env.path_rustup {
            Some(p) => p@,
            None => Seq::empty(),
        },
    }
}

/// The arguments that precede the formatter subcommand: only the
/// toolchain manager needs a sub-invocation selector.
pub open spec fn spec_prefix_args(kind: CandidateKind) -> Seq<Seq<char>> {
    match kind {
        CandidateKind::InheritedBinary => Seq::empty(),
        CandidateKind::PathFoundBinary => Seq::empty(),
        CandidateKind::ToolchainManager => seq!["run"@, "nightly"@, "cargo"@],
    }
}

/// The arguments of a candidate's version probe.
pub open spec fn spec_probe_args(kind: CandidateKind) -> Seq<Seq<char>> {
    spec_prefix_args(kind).push("--version"@)
}

/// The first candidate that exists, in priority order.
pub open spec fn spec_first_candidate(env: Environment) -> Option<CandidateKind> {
    if env.inherited_cargo is Some {
        Some(CandidateKind::InheritedBinary)
    } else if env.path_cargo is Some {
        Some(CandidateKind::PathFoundBinary)
    } else if env.path_rustup is Some {
        Some(CandidateKind::ToolchainManager)
    } else {
        None
    }
}

/// The next candidate after `kind` that exists, in priority order.
pub open spec fn spec_next_candidate(env: Environment, kind: CandidateKind) -> Option<
    CandidateKind,
> {
    match kind {
        CandidateKind::InheritedBinary => if env.path_cargo is Some {
            Some(CandidateKind::PathFoundBinary)
        } else if env.path_rustup is Some {
            Some(CandidateKind::ToolchainManager)
        } else {
            None
        },
        CandidateKind::PathFoundBinary => if env.path_rustup is Some {
            Some(CandidateKind::ToolchainManager)
        } else {
            None
        },
        CandidateKind::ToolchainManager => None,
    }
}

/// The candidate that resolution selects: the highest-priority existing
/// candidate whose probe reports nightly, each probe's captured output
/// given as `Some`, a failed probe as `None`.
pub open spec fn spec_selected(
    env: Environment,
    inherited_out: Option<Seq<char>>,
    path_out: Option<Seq<char>>,
    manager_out: Option<Seq<char>>,
) -> Option<CandidateKind> {
    if env.inherited_cargo is Some && probe_nightly(inherited_out) {
        Some(CandidateKind::InheritedBinary)
    } else if env.path_cargo is Some && probe_nightly(path_out) {
        Some(CandidateKind::PathFoundBinary)
    } else if env.path_rustup is Some && probe_nightly(manager_out) {
        Some(CandidateKind::ToolchainManager)
    } else {
        None
    }
}

/// Start of the priority scan.
pub fn first_candidate(env: &Environment) -> (r: Option<CandidateKind>)
    ensures
        r == spec_first_candidate(*env),
{
    if env.inherited_cargo.is_some() {
        Some(CandidateKind::InheritedBinary)
    } else if env.path_cargo.is_some() {
        Some(CandidateKind::PathFoundBinary)
    } else if env.path_rustup.is_some() {
        Some(CandidateKind::ToolchainManager)
    } else {
        None
    }
}

/// Advance the priority scan past a candidate whose probe did not report
/// nightly.
pub fn next_candidate(env: &Environment, kind: CandidateKind) -> (r: Option<CandidateKind>)
    ensures
        r == spec_next_candidate(*env, kind),
{
    match kind {
        CandidateKind::InheritedBinary => if env.path_cargo.is_some() {
            Some(CandidateKind::PathFoundBinary)
        } else if env.path_rustup.is_some() {
            Some(CandidateKind::ToolchainManager)
        } else {
            None
        },
        CandidateKind::PathFoundBinary => if env.path_rustup.is_some() {
            Some(CandidateKind::ToolchainManager)
        } else {
            None
        },
        CandidateKind::ToolchainManager => None,
    }
}

/// The program a candidate executes.
pub fn candidate_program(env: &Environment, kind: CandidateKind) -> (r: String)
    requires
        has_candidate(*env, kind),
    ensures
        r@ == spec_program(*env, kind),
{
    match kind {
        CandidateKind::InheritedBinary => match &env.inherited_cargo {
            Some(p) => p.clone(),
            None => vstd::pervasive::unreached(),
        },
        CandidateKind::PathFoundBinary => match &env.path_cargo {
            Some(p) => p.clone(),
            None => vstd::pervasive::unreached(),
        },
        CandidateKind::ToolchainManager => match &env.path_rustup {
            Some(p) => p.clone(),
            None => vstd::pervasive::unreached(),
        },
    }
}

/// The arguments that precede the formatter subcommand.
pub fn prefix_args(kind: CandidateKind) -> (r: Vec<String>)
    ensures
        r.deep_view() == spec_prefix_args(kind),
{
    match kind {
        CandidateKind::ToolchainManager => {
            let mut v: Vec<String> = Vec::new();
            v.push("run".to_owned());
            v.push("nightly".to_owned());
            v.push("cargo".to_owned());
            proof {
                assert(v.deep_view() =~= spec_prefix_args(kind));
            }
            v
        },
        _ => {
            let v: Vec<String> = Vec::new();
            proof {
                assert(v.deep_view() =~= spec_prefix_args(kind));
            }
            v
        },
    }
}

/// The arguments of a candidate's version probe.
pub fn probe_args(kind: CandidateKind) -> (r: Vec<String>)
    ensures
        r.deep_view() == spec_probe_args(kind),
{
    let mut v = prefix_args(kind);
    v.push("--version".to_owned());
    proof {
        assert(v.deep_view() =~= spec_probe_args(kind));
    }
    v
}

/// Pick the candidate from all three probe outcomes at once.
pub fn select_candidate(
    env: &Environment,
    inherited_out: &Option<String>,
    path_out: &Option<String>,
    manager_out: &Option<String>,
) -> (r: Option<CandidateKind>)
    ensures
        r == spec_selected(
            *env,
            inherited_out.deep_view(),
            path_out.deep_view(),
            manager_out.deep_view(),
        ),
{
    if env.inherited_cargo.is_some() && probe_reports_nightly(inherited_out) {
        Some(CandidateKind::InheritedBinary)
    } else if env.path_cargo.is_some() && probe_reports_nightly(path_out) {
        Some(CandidateKind::PathFoundBinary)
    } else if env.path_rustup.is_some() && probe_reports_nightly(manager_out) {
        Some(CandidateKind::ToolchainManager)
    } else {
        None
    }
}

/// Resolution's decision: the program to run, the arguments that must
/// precede the formatter subcommand, the subcommand verb itself, and the
/// caller's arguments, forwarded untouched.
pub struct ResolvedCommand {
    /// Path or name of the program to execute.
    pub program: String,
    /// Arguments that precede the formatter subcommand.
    pub prefix_args: Vec<String>,
    /// The formatter-invocation verb.
    pub subcommand: String,
    /// The caller's arguments, opaque and forwarded verbatim.
    pub passthrough_args: Vec<String>,
}

/// `c` is the command that resolution owes for the chosen candidate
/// `kind` and the caller's arguments `passthrough`.
pub open spec fn command_matches(
    c: ResolvedCommand,
    env: Environment,
    kind: CandidateKind,
    passthrough: Seq<Seq<char>>,
) -> bool {
    &&& c.program@ == spec_program(env, kind)
    &&& c.prefix_args.deep_view() == spec_prefix_args(kind)
    &&& c.subcommand@ == "fmt"@
    &&& c.passthrough_args.deep_view() == passthrough
}

/// Build the command for a chosen candidate.
pub fn resolved_command(env: &Environment, kind: CandidateKind, passthrough: Vec<String>) -> (r:
    ResolvedCommand)
    requires
        has_candidate(*env, kind),
    ensures
        command_matches(r, *env, kind, passthrough.deep_view()),
{
    ResolvedCommand {
        program: candidate_program(env, kind),
        prefix_args: prefix_args(kind),
        subcommand: "fmt".to_owned(),
        passthrough_args: passthrough,
    }
}

/// Resolve from all three probe outcomes at once: the command for the
/// selected candidate, or the error owed when no candidate probes
/// nightly.
pub fn resolve(
    env: &Environment,
    inherited_out: &Option<String>,
    path_out: &Option<String>,
    manager_out: &Option<String>,
    passthrough: Vec<String>,
) -> (r: Result<ResolvedCommand, ResolutionError>)
    ensures
        ({
            let sel = spec_selected(
                *env,
                inherited_out.deep_view(),
                path_out.deep_view(),
                manager_out.deep_view(),
            );
            match r {
                Ok(c) => sel matches Some(kind) && command_matches(
                    c,
                    *env,
                    kind,
                    passthrough.deep_view(),
                ),
                Err(e) => sel is None && e == ResolutionError::NoNightlyToolchainFound,
            }
        }),
{
    match select_candidate(env, inherited_out, path_out, manager_out) {
        Some(kind) => Ok(resolved_command(env, kind, passthrough)),
        None => Err(ResolutionError::NoNightlyToolchainFound),
    }
}

/// Lacking every candidate, resolution selects nothing — it must report
/// that no nightly toolchain was found — and the priority scan never
/// starts, so no probe is run.
pub proof fn lemma_no_candidates_no_selection(
    env: Environment,
    inherited_out: Option<Seq<char>>,
    path_out: Option<Seq<char>>,
    manager_out: Option<Seq<char>>,
)
    requires
        env.inherited_cargo is None,
        env.path_cargo is None,
        env.path_rustup is None,
    ensures
        spec_selected(env, inherited_out, path_out, manager_out) is None,
        spec_first_candidate(env) is None,
{
}

/// Priority is respected: when the inherited binary and the path-found
/// binary both exist and both probe nightly, the inherited binary is
/// selected.
pub proof fn lemma_inherited_binary_takes_priority(
    env: Environment,
    inherited_out: Option<Seq<char>>,
    path_out: Option<Seq<char>>,
    manager_out: Option<Seq<char>>,
)
    requires
        env.inherited_cargo is Some,
        env.path_cargo is Some,
        probe_nightly(inherited_out),
        probe_nightly(path_out),
    ensures
        spec_selected(env, inherited_out, path_out, manager_out) == Some(
            CandidateKind::InheritedBinary,
        ),
{
}

/// Resolution is idempotent: with the environment and every probe output
/// unchanged, the same candidate is selected.
pub proof fn lemma_selection_deterministic(
    env_a: Environment,
    env_b: Environment,
    inherited_out: Option<Seq<char>>,
    path_out: Option<Seq<char>>,
    manager_out: Option<Seq<char>>,
)
    requires
        env_a == env_b,
    ensures
        spec_selected(env_a, inherited_out, path_out, manager_out) == spec_selected(
            env_b,
            inherited_out,
            path_out,
            manager_out,
        ),
{
}

/// Resolution is idempotent, continued: the command owed for a chosen
/// candidate is uniquely determined by the environment, the candidate
/// and the caller's arguments, so two resolutions that select the same
/// candidate build the same command.
pub proof fn lemma_resolved_command_unique(
    a: ResolvedCommand,
    b: ResolvedCommand,
    env: Environment,
    kind: CandidateKind,
    passthrough: Seq<Seq<char>>,
)
    requires
        command_matches(a, env, kind, passthrough),
        command_matches(b, env, kind, passthrough),
    ensures
        a.program@ == b.program@,
        a.prefix_args.deep_view() == b.prefix_args.deep_view(),
        a.subcommand@ == b.subcommand@,
        a.passthrough_args.deep_view() == b.passthrough_args.deep_view(),
{
}

/// The priority scan agrees with the selection: stopping at the first
/// existing candidate whose probe reports nightly picks exactly the
/// selected candidate, and a scan that exhausts all candidates means
/// nothing is selected.
pub proof fn lemma_scan_agrees_with_selection(
    env: Environment,
    inherited_out: Option<Seq<char>>,
    path_out: Option<Seq<char>>,
    manager_out: Option<Seq<char>>,
)
    ensures
        env.inherited_cargo is Some && probe_nightly(inherited_out) ==> spec_selected(
            env,
            inherited_out,
            path_out,
            manager_out,
        ) == Some(CandidateKind::InheritedBinary),
        !(env.inherited_cargo is Some && probe_nightly(inherited_out)) && env.path_cargo is Some
            && probe_nightly(path_out) ==> spec_selected(
            env,
            inherited_out,
            path_out,
            manager_out,
        ) == Some(CandidateKind::PathFoundBinary),
        !(env.inherited_cargo is Some && probe_nightly(inherited_out)) && !(env.path_cargo is Some
            && probe_nightly(path_out)) && env.path_rustup is Some && probe_nightly(manager_out)
            ==> spec_selected(env, inherited_out, path_out, manager_out) == Some(
            CandidateKind::ToolchainManager,
        ),
        !(env.inherited_cargo is Some && probe_nightly(inherited_out)) && !(env.path_cargo is Some
            && probe_nightly(path_out)) && !(env.path_rustup is Some && probe_nightly(manager_out))
            ==> spec_selected(env, inherited_out, path_out, manager_out) is None,
{
}

} // verus!
