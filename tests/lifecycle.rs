use ios_xtask::command::CommandSpec;
use ios_xtask::config::Config;
use ios_xtask::failure::{Failure, SyncFailure};
use ios_xtask::stages::{
    app_bundle_path, boot_simulator, build_dir, ensure_macos, install_and_launch, install_app,
    launch_app, prepare_ios_build, sim_launch, sim_smoke,
};
use ios_xtask::steps::{judge, settle, Action, Notice, Outcome, Policy, Step, Verdict};

use Outcome::{Failed, Succeeded};

fn s(x: &str) -> String {
    x.to_string()
}

fn command(step: &Step) -> &CommandSpec {
    match &step.action {
        Action::Run(c) => c,
        other => panic!("not a run step: {other:?}"),
    }
}

#[test]
fn missing_bundle_after_successful_build_is_bundle_not_found() {
    let plan = prepare_ios_build(&s("/w"), &s("dest"));
    assert_eq!(plan.len(), 7);
    let outcomes = vec![Succeeded, Succeeded, Succeeded, Succeeded, Succeeded, Succeeded, Failed];
    assert_eq!(settle(plan, outcomes), Err(Failure::BundleNotFound));
}

#[test]
fn build_stage_steps_and_their_failures() {
    let plan = prepare_ios_build(&s("/w"), &s("dest"));
    assert_eq!(plan[0].action, Action::Exists(s("/w/scripts/build_ios_runner.sh")));
    assert_eq!(plan[0].policy, Policy::Required(Failure::ScriptMissing));
    assert_eq!(command(&plan[1]).program, "bash");
    assert_eq!(command(&plan[1]).args, vec![s("/w/scripts/build_ios_runner.sh")]);
    assert_eq!(command(&plan[1]).cwd, Some(s("/w")));
    assert!(matches!(plan[2].action, Action::Sync(_)));
    assert_eq!(plan[3].action, Action::RemoveTree(s("/w/target/ios-smoke-build")));
    assert_eq!(plan[4].action, Action::Exists(s("/w/ios/runner-smoke/RunnerSmoke.xcodeproj")));
    assert_eq!(command(&plan[5]).program, "xcodebuild");
    assert_eq!(
        command(&plan[5]).args,
        vec![
            s("-project"),
            s("/w/ios/runner-smoke/RunnerSmoke.xcodeproj"),
            s("-scheme"),
            s("RunnerSmoke"),
            s("-configuration"),
            s("Debug"),
            s("-destination"),
            s("dest"),
            s("BUILD_DIR=/w/target/ios-smoke-build"),
        ]
    );
    assert_eq!(
        plan[6].action,
        Action::Exists(s("/w/target/ios-smoke-build/Debug-iphonesimulator/RunnerSmoke.app"))
    );

    let fail_at = |i: usize| {
        let mut outcomes = vec![Succeeded; 7];
        outcomes[i] = Failed;
        settle(prepare_ios_build(&s("/w"), &s("dest")), outcomes)
    };
    assert_eq!(fail_at(0), Err(Failure::ScriptMissing));
    assert_eq!(fail_at(1), Err(Failure::ScriptFailed));
    assert_eq!(
        fail_at(2),
        Err(Failure::Sync(SyncFailure::Io(s(
            "/w/ios/runner-smoke/Frameworks/EframeIos.xcframework"
        ))))
    );
    assert_eq!(fail_at(3), Err(Failure::RemoveFailed(s("/w/target/ios-smoke-build"))));
    assert_eq!(fail_at(4), Err(Failure::ProjectMissing));
    assert_eq!(fail_at(5), Err(Failure::ToolFailed));
}

#[test]
fn staging_reports_its_own_failure() {
    let plan = prepare_ios_build(&s("/w"), &s("dest"));
    let mut outcomes = vec![Succeeded; 7];
    outcomes[2] = Outcome::SyncFailed(SyncFailure::MissingSource);
    assert_eq!(settle(plan, outcomes), Err(Failure::Sync(SyncFailure::MissingSource)));
}

#[test]
fn successful_build_stage_succeeds() {
    let plan = prepare_ios_build(&s("/w"), &s("dest"));
    assert_eq!(settle(plan, vec![Succeeded; 7]), Ok(()));
}

#[test]
fn failed_boot_is_absorbed_when_wait_succeeds() {
    let plan = install_and_launch(&s("iPhone 16"), &s("/b.app"));
    assert_eq!(plan.len(), 7);
    let outcomes = vec![Failed, Succeeded, Succeeded, Failed, Succeeded, Succeeded, Succeeded];
    assert_eq!(settle(plan, outcomes), Ok(()));
}

#[test]
fn failed_wait_is_boot_timeout_whatever_the_boot_did() {
    for boot in [Succeeded, Failed] {
        let plan = install_and_launch(&s("iPhone 16"), &s("/b.app"));
        let mut outcomes = vec![Succeeded; 7];
        outcomes[0] = boot;
        outcomes[1] = Failed;
        assert_eq!(settle(plan, outcomes), Err(Failure::BootTimeout));
    }
}

#[test]
fn device_stage_failures() {
    let fail_at = |i: usize| {
        let mut outcomes = vec![Succeeded; 7];
        outcomes[i] = Failed;
        settle(install_and_launch(&s("dev"), &s("/b.app")), outcomes)
    };
    assert_eq!(fail_at(2), Err(Failure::BundleMissing));
    assert_eq!(fail_at(3), Ok(()));
    assert_eq!(fail_at(4), Err(Failure::InstallFailed));
    assert_eq!(fail_at(6), Err(Failure::LaunchFailed));
}

#[test]
fn simulator_commands() {
    let boot = boot_simulator(&s("iPhone 16"));
    assert_eq!(command(&boot[0]).program, "xcrun");
    assert_eq!(command(&boot[0]).args, vec![s("simctl"), s("boot"), s("iPhone 16")]);
    assert_eq!(command(&boot[0]).cwd, None);
    assert_eq!(boot[0].policy, Policy::IgnorableWithWarning);
    assert_eq!(
        command(&boot[1]).args,
        vec![s("simctl"), s("bootstatus"), s("iPhone 16"), s("-b")]
    );
    assert_eq!(boot[1].policy, Policy::Required(Failure::BootTimeout));

    let install = install_app(&s("iPhone 16"), &s("/b.app"));
    assert_eq!(install[0].action, Action::Exists(s("/b.app")));
    assert_eq!(
        command(&install[1]).args,
        vec![s("simctl"), s("uninstall"), s("iPhone 16"), s("com.egui.RunnerSmoke")]
    );
    assert_eq!(install[1].policy, Policy::Ignorable);
    assert_eq!(
        command(&install[2]).args,
        vec![s("simctl"), s("install"), s("iPhone 16"), s("/b.app")]
    );

    let launch = launch_app(&s("iPhone 16"));
    assert_eq!(launch[0].action, Action::Say(Notice::LaunchGuidance(s("iPhone 16"))));
    assert_eq!(
        command(&launch[1]).args,
        vec![
            s("simctl"),
            s("launch"),
            s("--console"),
            s("iPhone 16"),
            s("com.egui.RunnerSmoke")
        ]
    );
}

#[test]
fn judge_follows_policy() {
    let step = |policy: Policy| Step { action: Action::Exists(s("/p")), policy };
    assert_eq!(judge(step(Policy::Ignorable), Failed), Verdict::Proceed);
    assert_eq!(judge(step(Policy::IgnorableWithWarning), Failed), Verdict::Warn);
    assert_eq!(
        judge(step(Policy::Required(Failure::ToolFailed)), Failed),
        Verdict::Stop(Failure::ToolFailed)
    );
    assert_eq!(judge(step(Policy::Required(Failure::ToolFailed)), Succeeded), Verdict::Proceed);
}

#[test]
fn ensure_macos_checks_host() {
    assert_eq!(ensure_macos(true), Ok(()));
    assert_eq!(ensure_macos(false), Err(Failure::PlatformUnsupported));
}

#[test]
fn smoke_and_launch_plans() {
    let config = Config::resolve(None, None, None);
    let smoke = sim_smoke(true, &s("/w"), &config).unwrap();
    assert_eq!(smoke.len(), 8);
    assert_eq!(smoke[7].action, Action::Say(Notice::SmokeFinished));
    assert_eq!(
        command(&smoke[5]).args[7],
        s("platform=iOS Simulator,name=iPhone 16")
    );

    let launch = sim_launch(true, &s("/w"), &config).unwrap();
    assert_eq!(launch.len(), 14);
    assert_eq!(launch[9].action, Action::Exists(app_bundle_path(&s("/w"))));
    assert_eq!(command(&launch[7]).args[2], s("iPhone 16"));
    assert_eq!(build_dir(&s("/w")), "/w/target/ios-smoke-build");
}
