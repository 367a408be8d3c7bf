//! The deployment pipeline as a state machine. A [`Pipeline`] holds the two
//! flags, the optional remote specifier and the queried local host identity;
//! it hands out one [`Invocation`] at a time, in the fixed order
//! sync → optional update → build → optional switch, and stops at the first
//! reported failure.

use vstd::pervasive::unreached;
use vstd::prelude::*;
use vstd::string::StringExecFns;

use crate::command::{
    build_invocation, checkout_invocation, pull_invocation, spec_build_invocation,
    spec_checkout_invocation, spec_pull_invocation, spec_switch_local_invocation,
    spec_switch_remote_invocation, spec_target_ref, spec_update_invocation,
    switch_local_invocation, switch_remote_invocation, update_invocation, Invocation,
    InvocationSpec, Step,
};
use crate::numeral::{fmt_i32, spec_decimal_int};
use crate::remote::{Remote, RemoteSpec};

verus! {

/// What the caller reports back after attempting one invocation.
#[derive(Debug, Clone, Copy, PartialEq, Eq, Structural)]
pub enum StepOutcome {
    /// The process ran to completion and exited with this status code.
    Exited(i32),
    /// The process was terminated without an exit code (by a signal).
    Terminated,
    /// The process could not be launched at all.
    LaunchFailed,
}

impl StepOutcome {
    /// Only a clean zero exit counts as success.
    pub open spec fn is_success(self) -> bool {
        self == StepOutcome::Exited(0i32)
    }
}

/// The step that aborted the pipeline, and how it failed.
#[derive(Debug, Clone, Copy, PartialEq, Eq, Structural)]
pub struct StepFailure {
    pub step: Step,
    pub outcome: StepOutcome,
}

/// The mathematical value of a pipeline's configuration.
#[verifier::ext_equal]
pub struct ConfigSpec {
    pub update: bool,
    pub build_only: bool,
    pub remote: Option<RemoteSpec>,
    pub local_host: Seq<char>,
}

/// The remote_name of the configuration's remote specifier; meaningful only
/// when one was supplied.
pub open spec fn cfg_remote_name(cfg: ConfigSpec) -> Seq<char> {
    match cfg.remote {
        Some(r) => r.remote_name,
        None => Seq::empty(),
    }
}

/// The target_host of the configuration's remote specifier; meaningful only
/// when one was supplied.
pub open spec fn cfg_target_host(cfg: ConfigSpec) -> Seq<char> {
    match cfg.remote {
        Some(r) => r.target_host,
        None => Seq::empty(),
    }
}

/// The effective build target name: the remote specifier's remote_name when
/// one was supplied, else the queried local host identity.
pub open spec fn spec_effective_name(cfg: ConfigSpec) -> Seq<char> {
    match cfg.remote {
        Some(r) => r.remote_name,
        None => cfg.local_host,
    }
}

/// The steps the configuration asks for, in order: checkout and pull always;
/// the update only when the update flag is set; the build always; and one
/// switch step, local or remote, unless build-only is set.
pub open spec fn spec_steps(cfg: ConfigSpec) -> Seq<Step> {
    seq![Step::Checkout, Step::Pull] + (if cfg.update {
        seq![Step::Update]
    } else {
        Seq::<Step>::empty()
    }) + seq![Step::Build] + (if cfg.build_only {
        Seq::<Step>::empty()
    } else if cfg.remote is Some {
        seq![Step::SwitchRemote]
    } else {
        seq![Step::SwitchLocal]
    })
}

/// The invocation a step runs under a given configuration.
pub open spec fn spec_invocation_for(step: Step, cfg: ConfigSpec) -> InvocationSpec
    recommends
        step is SwitchRemote ==> cfg.remote is Some,
{
    match step {
        Step::Checkout => spec_checkout_invocation(),
        Step::Pull => spec_pull_invocation(),
        Step::Update => spec_update_invocation(),
        Step::Build => spec_build_invocation(spec_effective_name(cfg)),
        Step::SwitchLocal => spec_switch_local_invocation(cfg.local_host),
        Step::SwitchRemote => match cfg.remote {
            Some(r) => spec_switch_remote_invocation(r),
            None => vstd::pervasive::arbitrary(),
        },
    }
}

/// The human-readable name a failing step is reported under.
pub open spec fn spec_step_name(step: Step) -> Seq<char> {
    match step {
        Step::Checkout => "git checkout"@,
        Step::Pull => "git pull"@,
        Step::Update => "nix flake update"@,
        Step::Build => "nix build"@,
        Step::SwitchLocal => "nixos-rebuild"@,
        Step::SwitchRemote => "nixos-rebuild (remote)"@,
    }
}

/// The message a failure is reported with: the failing step's name and the
/// status it failed with.
pub open spec fn spec_failure_message(f: StepFailure) -> Seq<char> {
    spec_step_name(f.step) + " failed"@ + (match f.outcome {
        StepOutcome::Exited(code) => ": exit status "@ + spec_decimal_int(code as int),
        StepOutcome::Terminated => ": terminated by signal"@,
        StepOutcome::LaunchFailed => ": could not launch"@,
    })
}

/// The step sequence, written out for each combination of the flags.
pub proof fn lemma_steps_layout(cfg: ConfigSpec)
    ensures
        cfg.update && cfg.build_only ==> spec_steps(cfg) =~= seq![
            Step::Checkout,
            Step::Pull,
            Step::Update,
            Step::Build,
        ],
        !cfg.update && cfg.build_only ==> spec_steps(cfg) =~= seq![
            Step::Checkout,
            Step::Pull,
            Step::Build,
        ],
        cfg.update && !cfg.build_only && cfg.remote is Some ==> spec_steps(cfg) =~= seq![
            Step::Checkout,
            Step::Pull,
            Step::Update,
            Step::Build,
            Step::SwitchRemote,
        ],
        cfg.update && !cfg.build_only && cfg.remote is None ==> spec_steps(cfg) =~= seq![
            Step::Checkout,
            Step::Pull,
            Step::Update,
            Step::Build,
            Step::SwitchLocal,
        ],
        !cfg.update && !cfg.build_only && cfg.remote is Some ==> spec_steps(cfg) =~= seq![
            Step::Checkout,
            Step::Pull,
            Step::Build,
            Step::SwitchRemote,
        ],
        !cfg.update && !cfg.build_only && cfg.remote is None ==> spec_steps(cfg) =~= seq![
            Step::Checkout,
            Step::Pull,
            Step::Build,
            Step::SwitchLocal,
        ],
{
}

/// A step's place in the pipeline's fixed order: sync sub-steps first, then
/// the update, then the build, then either switch.
pub open spec fn step_rank(step: Step) -> int {
    match step {
        Step::Checkout => 0,
        Step::Pull => 1,
        Step::Update => 2,
        Step::Build => 3,
        Step::SwitchLocal => 4,
        Step::SwitchRemote => 4,
    }
}

/// The pipeline's ordering: the sync sub-steps come first, and the steps of
/// every configuration stand in strictly increasing rank, so the sync
/// precedes the update, the update precedes the build, and the build precedes
/// the switch wherever those steps appear at all.
pub proof fn lemma_step_order(cfg: ConfigSpec)
    ensures
        spec_steps(cfg)[0] == Step::Checkout,
        spec_steps(cfg)[1] == Step::Pull,
        forall|i: int, j: int|
            0 <= i < j < spec_steps(cfg).len() ==> step_rank(spec_steps(cfg)[i]) < step_rank(
                spec_steps(cfg)[j],
            ),
{
    lemma_steps_layout(cfg);
}

/// With build-only set, no switch step appears in the pipeline, whatever the
/// other inputs.
pub proof fn lemma_build_only_never_switches(cfg: ConfigSpec)
    requires
        cfg.build_only,
    ensures
        forall|i: int|
            0 <= i < spec_steps(cfg).len() ==> !(spec_steps(cfg)[i] is SwitchLocal)
                && !(spec_steps(cfg)[i] is SwitchRemote),
{
    lemma_steps_layout(cfg);
}

/// With a remote specifier supplied, the build target name is the
/// specifier's remote_name (not the local host identity), and the switch — if
/// the pipeline switches at all — is the remote apply, directed at the
/// specifier's target_host.
pub proof fn lemma_remote_resolution(cfg: ConfigSpec)
    requires
        cfg.remote is Some,
    ensures
        spec_effective_name(cfg) == cfg_remote_name(cfg),
        spec_invocation_for(Step::Build, cfg).args[2] == spec_target_ref(cfg_remote_name(cfg)),
        !cfg.build_only ==> spec_steps(cfg).last() == Step::SwitchRemote,
        spec_invocation_for(Step::SwitchRemote, cfg).program == "nixos-rebuild"@,
        spec_invocation_for(Step::SwitchRemote, cfg).args[3] == "--target-host"@,
        spec_invocation_for(Step::SwitchRemote, cfg).args[4] == cfg_target_host(cfg),
{
    lemma_steps_layout(cfg);
}

/// Without a remote specifier, the build target name is the queried local
/// host identity, and the switch — if the pipeline switches at all — is the
/// local apply, invoked through local privilege escalation.
pub proof fn lemma_local_resolution(cfg: ConfigSpec)
    requires
        cfg.remote is None,
    ensures
        spec_effective_name(cfg) == cfg.local_host,
        spec_invocation_for(Step::Build, cfg).args[2] == spec_target_ref(cfg.local_host),
        !cfg.build_only ==> spec_steps(cfg).last() == Step::SwitchLocal,
        spec_invocation_for(Step::SwitchLocal, cfg).program == "sudo"@,
{
    lemma_steps_layout(cfg);
}

/// The deployment pipeline: configuration, progress, and the first failure,
/// if one was reported.
pub struct Pipeline {
    update: bool,
    build_only: bool,
    remote: Option<Remote>,
    local_host: String,
    pos: usize,
    failure: Option<StepFailure>,
}

impl Pipeline {
    /// The pipeline's configuration.
    pub closed spec fn cfg(&self) -> ConfigSpec {
        ConfigSpec {
            update: self.update,
            build_only: self.build_only,
            remote: self.remote.deep_view(),
            local_host: self.local_host@,
        }
    }

    /// The number of steps already completed.
    pub closed spec fn pos(&self) -> int {
        self.pos as int
    }

    /// The first failure reported, if any.
    pub closed spec fn failure(&self) -> Option<StepFailure> {
        self.failure
    }

    /// The pipeline's step sequence.
    pub open spec fn steps(&self) -> Seq<Step> {
        spec_steps(self.cfg())
    }

    /// Progress never passes the end, and a failure freezes the pipeline
    /// before its last step completes.
    pub open spec fn wf(&self) -> bool {
        &&& 0 <= self.pos() <= self.steps().len()
        &&& self.failure() is Some ==> self.pos() < self.steps().len()
    }

    /// No further step is offered: either a step failed, or all completed.
    pub open spec fn terminal(&self) -> bool {
        self.failure() is Some || self.pos() == self.steps().len()
    }

    /// Every step completed successfully.
    pub open spec fn completed(&self) -> bool {
        self.failure() is None && self.pos() == self.steps().len()
    }

    /// Starts a pipeline at its first step.
    pub fn new(update: bool, build_only: bool, remote: Option<Remote>, local_host: String) -> (p:
        Pipeline)
        ensures
            p.wf(),
            p.pos() == 0,
            p.failure() is None,
            p.cfg() == (ConfigSpec {
                update,
                build_only,
                remote: remote.deep_view(),
                local_host: local_host@,
            }),
    {
        Pipeline { update, build_only, remote, local_host, pos: 0, failure: None }
    }

    /// The number of steps the configuration asks for.
    pub fn step_count(&self) -> (n: usize)
        ensures
            n == self.steps().len(),
    {
        proof {
            lemma_steps_layout(self.cfg());
        }
        let mut n: usize = 3;
        if self.update {
            n = n + 1;
        }
        if !self.build_only {
            n = n + 1;
        }
        n
    }

    /// The step at a given position.
    fn step_at(&self, i: usize) -> (st: Step)
        requires
            i < self.steps().len(),
        ensures
            st == self.steps()[i as int],
    {
        proof {
            lemma_steps_layout(self.cfg());
        }
        if i == 0 {
            Step::Checkout
        } else if i == 1 {
            Step::Pull
        } else if self.update && i == 2 {
            Step::Update
        } else if i == (if self.update { 3 } else { 2 }) {
            Step::Build
        } else if self.remote.is_some() {
            Step::SwitchRemote
        } else {
            Step::SwitchLocal
        }
    }

    /// The step the pipeline is waiting on, or `None` once it is terminal.
    pub fn current_step(&self) -> (s: Option<Step>)
        requires
            self.wf(),
        ensures
            s is Some <==> !self.terminal(),
            s matches Some(st) ==> st == self.steps()[self.pos()],
    {
        if self.failure.is_some() {
            None
        } else {
            let n = self.step_count();
            if self.pos < n {
                Some(self.step_at(self.pos))
            } else {
                None
            }
        }
    }

    /// The effective build target name: the remote specifier's remote_name
    /// when one was supplied, else the queried local host identity.
    pub fn effective_name(&self) -> (name: &str)
        ensures
            name@ == spec_effective_name(self.cfg()),
    {
        match &self.remote {
            Some(r) => r.remote_name.as_str(),
            None => self.local_host.as_str(),
        }
    }

    /// The invocation to run next, or `None` once the pipeline is terminal.
    pub fn next_invocation(&self) -> (inv: Option<Invocation>)
        requires
            self.wf(),
        ensures
            inv is Some <==> !self.terminal(),
            inv matches Some(v) ==> v@ == spec_invocation_for(
                self.steps()[self.pos()],
                self.cfg(),
            ),
    {
        proof {
            lemma_steps_layout(self.cfg());
        }
        match self.current_step() {
            None => None,
            Some(step) => {
                let inv = match step {
                    Step::Checkout => checkout_invocation(),
                    Step::Pull => pull_invocation(),
                    Step::Update => update_invocation(),
                    Step::Build => build_invocation(self.effective_name()),
                    Step::SwitchLocal => switch_local_invocation(self.local_host.as_str()),
                    Step::SwitchRemote => match &self.remote {
                        Some(r) => switch_remote_invocation(
                            r.target_host.as_str(),
                            r.remote_name.as_str(),
                        ),
                        None => unreached(),
                    },
                };
                Some(inv)
            },
        }
    }

    /// Records what became of the step the pipeline was waiting on: success
    /// moves the pipeline one step forward; anything else stops it for good,
    /// remembering the failing step and its outcome.
    pub fn record_outcome(&mut self, outcome: StepOutcome)
        requires
            old(self).wf(),
            !old(self).terminal(),
        ensures
            final(self).wf(),
            final(self).cfg() == old(self).cfg(),
            outcome.is_success() ==> {
                &&& final(self).pos() == old(self).pos() + 1
                &&& final(self).failure() is None
            },
            !outcome.is_success() ==> {
                &&& final(self).pos() == old(self).pos()
                &&& final(self).failure() == Some(
                    StepFailure { step: old(self).steps()[old(self).pos()], outcome },
                )
                &&& final(self).terminal()
            },
    {
        let success = match outcome {
            StepOutcome::Exited(code) => code == 0,
            _ => false,
        };
        if success {
            self.pos = self.pos + 1;
        } else {
            let step = self.step_at(self.pos);
            self.failure = Some(StepFailure { step, outcome });
        }
    }

    /// A pipeline that recorded a failure is terminal: it never offers
    /// another step.
    pub proof fn lemma_failure_halts(&self)
        requires
            self.failure() is Some,
        ensures
            self.terminal(),
    {
    }

    /// The process exit status the pipeline asks for: zero unless a step
    /// failed.
    pub fn exit_code(&self) -> (c: i32)
        ensures
            c == (if self.failure() is Some {
                1i32
            } else {
                0i32
            }),
    {
        if self.failure.is_some() {
            1
        } else {
            0
        }
    }

    /// The message the recorded failure is reported with.
    pub fn failure_message(&self) -> (m: String)
        requires
            self.failure() is Some,
        ensures
            self.failure() matches Some(f) ==> m@ == spec_failure_message(f),
    {
        match &self.failure {
            None => unreached(),
            Some(f) => {
                let mut m = step_name(f.step).to_owned();
                m.append(" failed");
                match f.outcome {
                    StepOutcome::Exited(code) => {
                        m.append(": exit status ");
                        let digits = fmt_i32(code);
                        m.append(digits.as_str());
                    },
                    StepOutcome::Terminated => {
                        m.append(": terminated by signal");
                    },
                    StepOutcome::LaunchFailed => {
                        m.append(": could not launch");
                    },
                }
                proof {
                    assert(m@ =~= spec_failure_message(*f));
                }
                m
            },
        }
    }
}

/// The human-readable name a failing step is reported under.
pub fn step_name(step: Step) -> (r: &'static str)
    ensures
        r@ == spec_step_name(step),
{
    match step {
        Step::Checkout => "git checkout",
        Step::Pull => "git pull",
        Step::Update => "nix flake update",
        Step::Build => "nix build",
        Step::SwitchLocal => "nixos-rebuild",
        Step::SwitchRemote => "nixos-rebuild (remote)",
    }
}

} // verus!
