//! Build and test task planning.
//!
//! Each function plans the cargo invocations for the two workspaces — the
//! host-side tooling and the cross-compiled firmware — as plain data.
//! Spawning the processes is the caller's concern; the plans themselves
//! are fixed and verified.

use vstd::prelude::*;
use vstd::string::StringExecFns;

verus! {

/// Which workspace a cargo invocation runs in.
#[derive(Clone, Copy, Debug, PartialEq, Eq, Structural)]
pub enum Location {
    /// The repository root: host-side crates.
    Host,
    /// The firmware workspace: cross-compiled crates.
    Target,
}

/// One cargo invocation to perform: where, and with which arguments.
#[derive(Debug)]
pub struct Task {
    pub location: Location,
    pub args: Vec<String>,
}

/// The arguments of a task, as character sequences.
pub open spec fn spec_task_args(t: Task) -> Seq<Seq<char>> {
    t.args@.map_values(|s: String| s@)
}

/// Runs the firmware.
pub fn run() -> (r: Task)
    ensures
        r.location == Location::Target,
        spec_task_args(r) == seq!["run"@, "--release"@],
{
    let mut args: Vec<String> = Vec::new();
    args.push(String::from_str("run"));
    args.push(String::from_str("--release"));
    let t = Task { location: Location::Target, args };
    proof {
        assert(spec_task_args(t) =~= seq!["run"@, "--release"@]);
    }
    t
}

/// Builds the host workspace.
pub fn build_host() -> (r: Task)
    ensures
        r.location == Location::Host,
        spec_task_args(r) == seq!["build"@],
{
    let mut args: Vec<String> = Vec::new();
    args.push(String::from_str("build"));
    let t = Task { location: Location::Host, args };
    proof {
        assert(spec_task_args(t) =~= seq!["build"@]);
    }
    t
}

/// Builds the firmware workspace.
pub fn build_target() -> (r: Task)
    ensures
        r.location == Location::Target,
        spec_task_args(r) == seq!["build"@, "--release"@],
{
    let mut args: Vec<String> = Vec::new();
    args.push(String::from_str("build"));
    args.push(String::from_str("--release"));
    let t = Task { location: Location::Target, args };
    proof {
        assert(spec_task_args(t) =~= seq!["build"@, "--release"@]);
    }
    t
}

/// Builds both workspaces, host first.
pub fn build_all() -> (r: Vec<Task>)
    ensures
        r@.len() == 2,
        r@[0].location == Location::Host,
        spec_task_args(r@[0]) == seq!["build"@],
        r@[1].location == Location::Target,
        spec_task_args(r@[1]) == seq!["build"@, "--release"@],
{
    let mut tasks: Vec<Task> = Vec::new();
    tasks.push(build_host());
    tasks.push(build_target());
    tasks
}

/// Tests the host workspace.
pub fn test_host() -> (r: Task)
    ensures
        r.location == Location::Host,
        spec_task_args(r) == seq!["test"@],
{
    let mut args: Vec<String> = Vec::new();
    args.push(String::from_str("test"));
    let t = Task { location: Location::Host, args };
    proof {
        assert(spec_task_args(t) =~= seq!["test"@]);
    }
    t
}

/// Tests the firmware workspace: only its on-device self-test package.
pub fn test_target() -> (r: Task)
    ensures
        r.location == Location::Target,
        spec_task_args(r) == seq!["test"@, "--package"@, "self_tests"@],
{
    let mut args: Vec<String> = Vec::new();
    args.push(String::from_str("test"));
    args.push(String::from_str("--package"));
    args.push(String::from_str("self_tests"));
    let t = Task { location: Location::Target, args };
    proof {
        assert(spec_task_args(t) =~= seq!["test"@, "--package"@, "self_tests"@]);
    }
    t
}

/// Tests both workspaces, host first.
pub fn test_all() -> (r: Vec<Task>)
    ensures
        r@.len() == 2,
        r@[0].location == Location::Host,
        spec_task_args(r@[0]) == seq!["test"@],
        r@[1].location == Location::Target,
        spec_task_args(r@[1]) == seq!["test"@, "--package"@, "self_tests"@],
{
    let mut tasks: Vec<Task> = Vec::new();
    tasks.push(test_host());
    tasks.push(test_target());
    tasks
}

/// Copies an argument list.
fn copy_args(args: &Vec<String>) -> (r: Vec<String>)
    ensures
        r@.len() == args@.len(),
        forall|i: int| 0 <= i < args@.len() ==> #[trigger] r@[i]@ == args@[i]@,
{
    let mut r: Vec<String> = Vec::new();
    let mut i: usize = 0;
    while i < args.len()
        invariant
            i <= args@.len(),
            r@.len() == i,
            forall|j: int| 0 <= j < i ==> #[trigger] r@[j]@ == args@[j]@,
        decreases args@.len() - i,
    {
        r.push(String::from_str(args[i].as_str()));
        i = i + 1;
    }
    r
}

/// Forwards a cargo subcommand to the host workspace.
pub fn subcommand_host(args: &Vec<String>) -> (r: Task)
    ensures
        r.location == Location::Host,
        spec_task_args(r) == args@.map_values(|s: String| s@),
{
    let t = Task { location: Location::Host, args: copy_args(args) };
    proof {
        assert(spec_task_args(t) =~= args@.map_values(|s: String| s@));
    }
    t
}

/// Forwards a cargo subcommand to the firmware workspace.
pub fn subcommand_target(args: &Vec<String>) -> (r: Task)
    ensures
        r.location == Location::Target,
        spec_task_args(r) == args@.map_values(|s: String| s@),
{
    let t = Task { location: Location::Target, args: copy_args(args) };
    proof {
        assert(spec_task_args(t) =~= args@.map_values(|s: String| s@));
    }
    t
}

/// Forwards a cargo subcommand to both workspaces, host first.
pub fn subcommand_all(args: &Vec<String>) -> (r: Vec<Task>)
    ensures
        r@.len() == 2,
        r@[0].location == Location::Host,
        spec_task_args(r@[0]) == args@.map_values(|s: String| s@),
        r@[1].location == Location::Target,
        spec_task_args(r@[1]) == args@.map_values(|s: String| s@),
{
    let mut tasks: Vec<Task> = Vec::new();
    tasks.push(subcommand_host(args));
    tasks.push(subcommand_target(args));
    tasks
}

} // verus!
