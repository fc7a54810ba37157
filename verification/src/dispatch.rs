//! Dispatching the resolved command: the final argument vector handed to
//! the chosen program, and the exit code this program owes once a child
//! formatter has finished.

use crate::resolve::ResolvedCommand;
use vstd::prelude::*;

verus! {

/// The final argument vector: the candidate's prefix arguments, then the
/// formatter subcommand, then the caller's passthrough arguments.
pub open spec fn spec_command_argv(c: ResolvedCommand) -> Seq<Seq<char>> {
    c.prefix_args.deep_view().push(c.subcommand@) + c.passthrough_args.deep_view()
}

/// Build the argument vector that the chosen program is run with.
pub fn command_argv(c: &ResolvedCommand) -> (r: Vec<String>)
    ensures
        r.deep_view() == spec_command_argv(*c),
{
    let mut r: Vec<String> = Vec::new();
    let mut i: usize = 0;
    while i < c.prefix_args.len()
        invariant
            i <= c.prefix_args@.len(),
            r@.len() == i,
            forall|j: int| 0 <= j < i ==> r@[j]@ == c.prefix_args@[j]@,
        decreases c.prefix_args@.len() - i,
    {
        r.push(c.prefix_args[i].clone());
        i += 1;
    }
    r.push(c.subcommand.clone());
    let mut k: usize = 0;
    while k < c.passthrough_args.len()
        invariant
            k <= c.passthrough_args@.len(),
            r@.len() == c.prefix_args@.len() + 1 + k,
            forall|j: int|
                0 <= j < c.prefix_args@.len() ==> r@[j]@ == c.prefix_args@[j]@,
            r@[c.prefix_args@.len() as int]@ == c.subcommand@,
            forall|j: int|
                0 <= j < k ==> r@[c.prefix_args@.len() + 1 + j]@ == c.passthrough_args@[j]@,
        decreases c.passthrough_args@.len() - k,
    {
        r.push(c.passthrough_args[k].clone());
        k += 1;
    }
    proof {
        assert(r.deep_view() =~= spec_command_argv(*c));
    }
    r
}

/// The exit code owed for a finished child formatter: its own exit code,
/// or 1 when it terminated without reporting one.
pub fn propagated_exit_code(code: Option<i32>) -> (r: i32)
    ensures
        code matches Some(c) ==> r == c,
        code is None ==> r == 1,
{
    match code {
        Some(c) => c,
        None => 1,
    }
}

} // verus!
