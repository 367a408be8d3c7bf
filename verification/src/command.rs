//! The pipeline's steps, and the exact subprocess invocation each step asks
//! the caller to run: a program name, its argument list, and whether the
//! process's output is suppressed.

use vstd::prelude::*;
use vstd::string::StringExecFns;

use crate::remote::RemoteSpec;

verus! {

/// One step of the deployment pipeline.
#[derive(Debug, Clone, Copy, PartialEq, Eq, Structural)]
pub enum Step {
    /// Check the fixed branch out in the working directory.
    Checkout,
    /// Pull the configuration repository.
    Pull,
    /// Refresh the pinned dependency inputs.
    Update,
    /// Build the effective target.
    Build,
    /// Apply the built configuration locally, through privilege escalation.
    SwitchLocal,
    /// Apply the built configuration on the remote target host.
    SwitchRemote,
}

/// A subprocess for the caller to run: the program, its arguments in order,
/// and whether its output streams are to be suppressed.
pub struct Invocation {
    pub program: String,
    pub args: Vec<String>,
    pub suppress_output: bool,
}

/// The mathematical value of an [`Invocation`]: program and arguments as
/// character sequences.
#[verifier::ext_equal]
pub struct InvocationSpec {
    pub program: Seq<char>,
    pub args: Seq<Seq<char>>,
    pub suppress_output: bool,
}

impl View for Invocation {
    type V = InvocationSpec;

    open spec fn view(&self) -> InvocationSpec {
        InvocationSpec {
            program: self.program@,
            args: self.args.deep_view(),
            suppress_output: self.suppress_output,
        }
    }
}

/// The build target reference the effective name is formatted into.
pub open spec fn spec_target_ref(name: Seq<char>) -> Seq<char> {
    ".#nixosConfigurations."@ + name + ".config.system.build.toplevel"@
}

/// The flake reference for an apply step.
pub open spec fn spec_flake_ref(name: Seq<char>) -> Seq<char> {
    ".#"@ + name
}

/// `git checkout master`.
pub open spec fn spec_checkout_invocation() -> InvocationSpec {
    InvocationSpec {
        program: "git"@,
        args: seq!["checkout"@, "master"@],
        suppress_output: false,
    }
}

/// `git pull`.
pub open spec fn spec_pull_invocation() -> InvocationSpec {
    InvocationSpec { program: "git"@, args: seq!["pull"@], suppress_output: false }
}

/// `nix flake update --commit-lock-file`, output suppressed.
pub open spec fn spec_update_invocation() -> InvocationSpec {
    InvocationSpec {
        program: "nix"@,
        args: seq!["flake"@, "update"@, "--commit-lock-file"@],
        suppress_output: true,
    }
}

/// `nix build -L <target-ref> --show-trace` for the effective name.
pub open spec fn spec_build_invocation(name: Seq<char>) -> InvocationSpec {
    InvocationSpec {
        program: "nix"@,
        args: seq!["build"@, "-L"@, spec_target_ref(name), "--show-trace"@],
        suppress_output: false,
    }
}

/// `sudo nixos-rebuild switch --flake .#<host>`: the local apply, through
/// local privilege escalation.
pub open spec fn spec_switch_local_invocation(host: Seq<char>) -> InvocationSpec {
    InvocationSpec {
        program: "sudo"@,
        args: seq!["nixos-rebuild"@, "switch"@, "--flake"@, spec_flake_ref(host)],
        suppress_output: false,
    }
}

/// `nixos-rebuild switch --flake .#<remote_name> --target-host <target_host>
/// --sudo`: the remote apply, with privilege escalation on the remote side
/// and none locally.
pub open spec fn spec_switch_remote_invocation(remote: RemoteSpec) -> InvocationSpec {
    InvocationSpec {
        program: "nixos-rebuild"@,
        args: seq![
            "switch"@,
            "--flake"@,
            spec_flake_ref(remote.remote_name),
            "--target-host"@,
            remote.target_host,
            "--sudo"@,
        ],
        suppress_output: false,
    }
}

/// Appends one argument to an argument list.
fn push_arg(args: &mut Vec<String>, a: &str)
    ensures
        final(args).deep_view() == old(args).deep_view().push(a@),
{
    args.push(a.to_owned());
    proof {
        assert(args.deep_view() =~= old(args).deep_view().push(a@));
    }
}

/// Formats the effective name into the build target reference.
pub fn build_target_ref(name: &str) -> (r: String)
    ensures
        r@ == spec_target_ref(name@),
{
    let mut s = String::from_str(".#nixosConfigurations.");
    s.append(name);
    s.append(".config.system.build.toplevel");
    proof {
        assert(s@ =~= spec_target_ref(name@));
    }
    s
}

/// Formats a name into a flake reference.
pub fn flake_ref(name: &str) -> (r: String)
    ensures
        r@ == spec_flake_ref(name@),
{
    let mut s = String::from_str(".#");
    s.append(name);
    s
}

/// Builds the checkout invocation.
pub fn checkout_invocation() -> (inv: Invocation)
    ensures
        inv@ == spec_checkout_invocation(),
{
    let mut args: Vec<String> = Vec::new();
    push_arg(&mut args, "checkout");
    push_arg(&mut args, "master");
    let inv = Invocation { program: String::from_str("git"), args, suppress_output: false };
    proof {
        assert(inv@.args =~= spec_checkout_invocation().args);
        assert(inv@ =~= spec_checkout_invocation());
    }
    inv
}

/// Builds the pull invocation.
pub fn pull_invocation() -> (inv: Invocation)
    ensures
        inv@ == spec_pull_invocation(),
{
    let mut args: Vec<String> = Vec::new();
    push_arg(&mut args, "pull");
    let inv = Invocation { program: String::from_str("git"), args, suppress_output: false };
    proof {
        assert(inv@.args =~= spec_pull_invocation().args);
        assert(inv@ =~= spec_pull_invocation());
    }
    inv
}

/// Builds the dependency-update invocation; its output is suppressed.
pub fn update_invocation() -> (inv: Invocation)
    ensures
        inv@ == spec_update_invocation(),
{
    let mut args: Vec<String> = Vec::new();
    push_arg(&mut args, "flake");
    push_arg(&mut args, "update");
    push_arg(&mut args, "--commit-lock-file");
    let inv = Invocation { program: String::from_str("nix"), args, suppress_output: true };
    proof {
        assert(inv@.args =~= spec_update_invocation().args);
        assert(inv@ =~= spec_update_invocation());
    }
    inv
}

/// Builds the build invocation for the effective name.
pub fn build_invocation(name: &str) -> (inv: Invocation)
    ensures
        inv@ == spec_build_invocation(name@),
{
    let target = build_target_ref(name);
    let mut args: Vec<String> = Vec::new();
    push_arg(&mut args, "build");
    push_arg(&mut args, "-L");
    push_arg(&mut args, target.as_str());
    push_arg(&mut args, "--show-trace");
    let inv = Invocation { program: String::from_str("nix"), args, suppress_output: false };
    proof {
        assert(inv@.args =~= spec_build_invocation(name@).args);
        assert(inv@ =~= spec_build_invocation(name@));
    }
    inv
}

/// Builds the local apply invocation for the local host identity.
pub fn switch_local_invocation(host: &str) -> (inv: Invocation)
    ensures
        inv@ == spec_switch_local_invocation(host@),
{
    let flake = flake_ref(host);
    let mut args: Vec<String> = Vec::new();
    push_arg(&mut args, "nixos-rebuild");
    push_arg(&mut args, "switch");
    push_arg(&mut args, "--flake");
    push_arg(&mut args, flake.as_str());
    let inv = Invocation { program: String::from_str("sudo"), args, suppress_output: false };
    proof {
        assert(inv@.args =~= spec_switch_local_invocation(host@).args);
        assert(inv@ =~= spec_switch_local_invocation(host@));
    }
    inv
}

/// Builds the remote apply invocation for a remote specifier's fields.
pub fn switch_remote_invocation(target_host: &str, remote_name: &str) -> (inv: Invocation)
    ensures
        inv@ == spec_switch_remote_invocation(
            RemoteSpec { target_host: target_host@, remote_name: remote_name@ },
        ),
{
    let flake = flake_ref(remote_name);
    let mut args: Vec<String> = Vec::new();
    push_arg(&mut args, "switch");
    push_arg(&mut args, "--flake");
    push_arg(&mut args, flake.as_str());
    push_arg(&mut args, "--target-host");
    push_arg(&mut args, target_host);
    push_arg(&mut args, "--sudo");
    let inv = Invocation {
        program: String::from_str("nixos-rebuild"),
        args,
        suppress_output: false,
    };
    proof {
        let rs = RemoteSpec { target_host: target_host@, remote_name: remote_name@ };
        assert(inv@.args =~= spec_switch_remote_invocation(rs).args);
        assert(inv@ =~= spec_switch_remote_invocation(rs));
    }
    inv
}

} // verus!
