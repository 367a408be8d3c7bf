use nixup::command::{Invocation, Step};
use nixup::pipeline::{Pipeline, StepOutcome};
use nixup::remote::Remote;

/// Drives the pipeline to the end, reporting success for every step, and
/// returns the invocations it handed out, in order.
fn run_all_success(p: &mut Pipeline) -> Vec<Invocation> {
    let mut invocations = Vec::new();
    while let Some(inv) = p.next_invocation() {
        invocations.push(inv);
        p.record_outcome(StepOutcome::Exited(0));
    }
    invocations
}

fn args_of(inv: &Invocation) -> Vec<&str> {
    inv.args.iter().map(|a| a.as_str()).collect()
}

#[test]
fn local_full_run_in_order() {
    let mut p = Pipeline::new(false, false, None, String::from("myhost"));
    assert_eq!(p.current_step(), Some(Step::Checkout));
    let invs = run_all_success(&mut p);
    assert_eq!(invs.len(), 4);
    assert_eq!(invs[0].program, "git");
    assert_eq!(args_of(&invs[0]), vec!["checkout", "master"]);
    assert!(!invs[0].suppress_output);
    assert_eq!(invs[1].program, "git");
    assert_eq!(args_of(&invs[1]), vec!["pull"]);
    assert_eq!(invs[2].program, "nix");
    assert_eq!(
        args_of(&invs[2]),
        vec![
            "build",
            "-L",
            ".#nixosConfigurations.myhost.config.system.build.toplevel",
            "--show-trace"
        ]
    );
    assert_eq!(invs[3].program, "sudo");
    assert_eq!(
        args_of(&invs[3]),
        vec!["nixos-rebuild", "switch", "--flake", ".#myhost"]
    );
    assert_eq!(p.exit_code(), 0);
}

#[test]
fn update_runs_between_pull_and_build() {
    let mut p = Pipeline::new(true, false, None, String::from("myhost"));
    let invs = run_all_success(&mut p);
    assert_eq!(invs.len(), 5);
    assert_eq!(args_of(&invs[1]), vec!["pull"]);
    assert_eq!(invs[2].program, "nix");
    assert_eq!(
        args_of(&invs[2]),
        vec!["flake", "update", "--commit-lock-file"]
    );
    assert!(invs[2].suppress_output);
    assert_eq!(args_of(&invs[3])[0], "build");
    assert_eq!(p.exit_code(), 0);
}

#[test]
fn build_only_never_switches() {
    let remote = Remote::from_str("desktop:home-desktop").unwrap();
    let mut p = Pipeline::new(true, true, Some(remote), String::from("myhost"));
    let invs = run_all_success(&mut p);
    assert_eq!(invs.len(), 4);
    for inv in &invs {
        assert_ne!(inv.program, "nixos-rebuild");
        assert_ne!(inv.program, "sudo");
    }
    assert_eq!(args_of(&invs[3])[0], "build");
    assert_eq!(p.exit_code(), 0);
}

#[test]
fn remote_run_builds_remote_name_and_targets_host() {
    let remote = Remote::from_str("desktop:home-desktop").unwrap();
    let mut p = Pipeline::new(false, false, Some(remote), String::from("myhost"));
    assert_eq!(p.effective_name(), "home-desktop");
    let invs = run_all_success(&mut p);
    assert_eq!(invs.len(), 4);
    assert_eq!(
        args_of(&invs[2]),
        vec![
            "build",
            "-L",
            ".#nixosConfigurations.home-desktop.config.system.build.toplevel",
            "--show-trace"
        ]
    );
    assert_eq!(invs[3].program, "nixos-rebuild");
    assert_eq!(
        args_of(&invs[3]),
        vec![
            "switch",
            "--flake",
            ".#home-desktop",
            "--target-host",
            "desktop",
            "--sudo"
        ]
    );
    assert_eq!(p.exit_code(), 0);
}

#[test]
fn local_run_builds_local_host_name() {
    let p = Pipeline::new(false, false, None, String::from("myhost"));
    assert_eq!(p.effective_name(), "myhost");
}

#[test]
fn failure_stops_pipeline_immediately() {
    let mut p = Pipeline::new(false, false, None, String::from("myhost"));
    let first = p.next_invocation().unwrap();
    assert_eq!(first.program, "git");
    p.record_outcome(StepOutcome::Exited(0));
    let second = p.next_invocation().unwrap();
    assert_eq!(args_of(&second), vec!["pull"]);
    p.record_outcome(StepOutcome::Exited(1));
    assert!(p.next_invocation().is_none());
    assert_eq!(p.current_step(), None);
    assert_eq!(p.exit_code(), 1);
    assert_eq!(p.failure_message(), "git pull failed: exit status 1");
}

#[test]
fn update_failure_aborts_before_build() {
    let mut p = Pipeline::new(true, false, None, String::from("myhost"));
    p.record_outcome(StepOutcome::Exited(0));
    p.record_outcome(StepOutcome::Exited(0));
    p.record_outcome(StepOutcome::Exited(2));
    assert!(p.next_invocation().is_none());
    assert_eq!(p.exit_code(), 1);
    assert_eq!(p.failure_message(), "nix flake update failed: exit status 2");
}

#[test]
fn launch_failure_is_reported() {
    let mut p = Pipeline::new(false, true, None, String::from("myhost"));
    p.record_outcome(StepOutcome::Exited(0));
    p.record_outcome(StepOutcome::Exited(0));
    p.record_outcome(StepOutcome::LaunchFailed);
    assert_eq!(p.exit_code(), 1);
    assert_eq!(p.failure_message(), "nix build failed: could not launch");
}

#[test]
fn signal_termination_is_reported() {
    let mut p = Pipeline::new(false, false, None, String::from("myhost"));
    p.record_outcome(StepOutcome::Terminated);
    assert_eq!(p.exit_code(), 1);
    assert_eq!(
        p.failure_message(),
        "git checkout failed: terminated by signal"
    );
}

#[test]
fn remote_switch_failure_is_reported() {
    let remote = Remote::from_str("desktop:home-desktop").unwrap();
    let mut p = Pipeline::new(false, false, Some(remote), String::from("myhost"));
    p.record_outcome(StepOutcome::Exited(0));
    p.record_outcome(StepOutcome::Exited(0));
    p.record_outcome(StepOutcome::Exited(0));
    p.record_outcome(StepOutcome::Exited(127));
    assert_eq!(p.exit_code(), 1);
    assert_eq!(
        p.failure_message(),
        "nixos-rebuild (remote) failed: exit status 127"
    );
}

#[test]
fn nonzero_negative_status_is_reported() {
    let mut p = Pipeline::new(false, false, None, String::from("myhost"));
    p.record_outcome(StepOutcome::Exited(-7));
    assert_eq!(p.exit_code(), 1);
    assert_eq!(p.failure_message(), "git checkout failed: exit status -7");
}
