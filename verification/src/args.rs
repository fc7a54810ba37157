//! Splitting the raw process arguments: the program name is dropped, and
//! when this program runs as the build tool's plugin, the leading
//! subcommand-name token that the build tool inserts is dropped too. All
//! remaining tokens are passthrough arguments, forwarded verbatim and
//! never inspected.

use crate::text::str_eq;
use vstd::prelude::*;

verus! {

/// The passthrough arguments owed for raw process arguments `argv`.
/// `plugin` says whether a plugin invocation was detected (the build
/// tool's self-identifying variable is set); the leading token is then
/// stripped when it is the plugin's subcommand name.
pub open spec fn spec_passthrough(argv: Seq<Seq<char>>, plugin: bool) -> Seq<Seq<char>> {
    if plugin && argv.len() >= 2 && argv[1] == "format"@ {
        argv.skip(2)
    } else if argv.len() >= 1 {
        argv.skip(1)
    } else {
        argv
    }
}

/// Split the raw process arguments into the passthrough arguments.
pub fn passthrough_args(argv: &Vec<String>, plugin: bool) -> (r: Vec<String>)
    ensures
        r.deep_view() == spec_passthrough(argv.deep_view(), plugin),
{
    let start: usize = if plugin && argv.len() >= 2 && str_eq(argv[1].as_str(), "format") {
        2
    } else if argv.len() >= 1 {
        1
    } else {
        0
    };
    let mut r: Vec<String> = Vec::new();
    let mut i: usize = start;
    while i < argv.len()
        invariant
            start <= i <= argv.len(),
            r@.len() == i - start,
            forall|j: int| 0 <= j < r@.len() ==> r@[j]@ == argv@[start + j]@,
        decreases argv.len() - i,
    {
        r.push(argv[i].clone());
        i += 1;
    }
    proof {
        assert(r.deep_view() =~= spec_passthrough(argv.deep_view(), plugin));
    }
    r
}

} // verus!
