//! The build stage, the device lifecycle stage, and the plans of the
//! subcommands built from them.

use vstd::prelude::*;

use crate::command::{
    boot_cmd, bootstatus_cmd, bundler_args, bundler_cmd, install_cmd, launch_cmd, script_args,
    script_cmd, uninstall_cmd, words, xcodebuild_args, xcodebuild_cmd, APP_BUNDLE_ID,
};
use crate::config::Config;
use crate::failure::{Failure, SyncFailure};
use crate::mirror::sync_paths;
use crate::paths::{
    join, joined, APP_SUFFIX, BUILD_DIR, HEADER_SRC, HOST_FRAMEWORK_DST, HOST_HEADER_DST,
    HOST_PROJECT, SCRIPT_PATH, XCFRAMEWORK_SRC,
};
use crate::steps::{checks, run_result, runs, verdict, Action, Notice, Outcome, Policy, Step};

verus! {

/// The build output directory under the workspace root.
pub open spec fn build_dir_of(root: Seq<char>) -> Seq<char> {
    joined(root, BUILD_DIR@)
}

/// The compiled app bundle under the workspace root.
pub open spec fn app_path_of(root: Seq<char>) -> Seq<char> {
    joined(build_dir_of(root), APP_SUFFIX@)
}

/// The step stops the run with `f` when it does not succeed.
pub open spec fn stops_with(s: Step, f: Failure) -> bool {
    s.policy == Policy::Required(f)
}

/// Check for the build script, then run it.
pub open spec fn is_script_plan(s: Seq<Step>, root: Seq<char>) -> bool {
    &&& s.len() == 2
    &&& checks(s[0], joined(root, SCRIPT_PATH@))
    &&& stops_with(s[0], Failure::ScriptMissing)
    &&& runs(s[1], "bash"@, script_args(root), Some(root))
    &&& stops_with(s[1], Failure::ScriptFailed)
}

/// Check for the host project, then build it into `build_dir`.
pub open spec fn is_xcodebuild_plan(
    s: Seq<Step>,
    root: Seq<char>,
    build_dir: Seq<char>,
    destination: Seq<char>,
) -> bool {
    &&& s.len() == 2
    &&& checks(s[0], joined(root, HOST_PROJECT@))
    &&& stops_with(s[0], Failure::ProjectMissing)
    &&& runs(s[1], "xcodebuild"@, xcodebuild_args(root, build_dir, destination), Some(root))
    &&& stops_with(s[1], Failure::ToolFailed)
}

/// The step stages the artifacts under `root`; a failure it does not
/// explain is blamed on the destination directory.
pub open spec fn is_sync_step(s: Step, root: Seq<char>) -> bool {
    &&& s.action is Sync
    &&& s.action->Sync_0.src_dir@ == joined(root, XCFRAMEWORK_SRC@)
    &&& s.action->Sync_0.src_header@ == joined(root, HEADER_SRC@)
    &&& s.action->Sync_0.dest_dir@ == joined(root, HOST_FRAMEWORK_DST@)
    &&& s.action->Sync_0.dest_header@ == joined(root, HOST_HEADER_DST@)
    &&& s.policy is Required
    &&& s.policy->Required_0 is Sync
    &&& s.policy->Required_0->Sync_0 is Io
    &&& s.policy->Required_0->Sync_0->Io_0@ == joined(root, HOST_FRAMEWORK_DST@)
}

/// The step removes the build output directory, stopping the run when it
/// cannot.
pub open spec fn is_clear_step(s: Step, root: Seq<char>) -> bool {
    &&& s.action is RemoveTree
    &&& s.action->RemoveTree_0@ == build_dir_of(root)
    &&& s.policy is Required
    &&& s.policy->Required_0 is RemoveFailed
    &&& s.policy->Required_0->RemoveFailed_0@ == build_dir_of(root)
}

/// Build script, staging, a clean build directory, the host build, and the
/// check that the bundle the build reported is on disk.
pub open spec fn is_build_plan(s: Seq<Step>, root: Seq<char>, destination: Seq<char>) -> bool {
    &&& s.len() == 7
    &&& is_script_plan(s.subrange(0, 2), root)
    &&& is_sync_step(s[2], root)
    &&& is_clear_step(s[3], root)
    &&& is_xcodebuild_plan(s.subrange(4, 6), root, build_dir_of(root), destination)
    &&& checks(s[6], app_path_of(root))
    &&& stops_with(s[6], Failure::BundleNotFound)
}

/// Boot, tolerated with a warning, then the wait for the boot to complete.
pub open spec fn is_boot_plan(s: Seq<Step>, device: Seq<char>) -> bool {
    &&& s.len() == 2
    &&& runs(s[0], "xcrun"@, seq!["simctl"@, "boot"@, device], None)
    &&& s[0].policy is IgnorableWithWarning
    &&& runs(s[1], "xcrun"@, seq!["simctl"@, "bootstatus"@, device, "-b"@], None)
    &&& stops_with(s[1], Failure::BootTimeout)
}

/// Check for the bundle, uninstall whatever is there, then install.
pub open spec fn is_install_plan(s: Seq<Step>, device: Seq<char>, bundle: Seq<char>) -> bool {
    &&& s.len() == 3
    &&& checks(s[0], bundle)
    &&& stops_with(s[0], Failure::BundleMissing)
    &&& runs(s[1], "xcrun"@, seq!["simctl"@, "uninstall"@, device, APP_BUNDLE_ID@], None)
    &&& s[1].policy is Ignorable
    &&& runs(s[2], "xcrun"@, seq!["simctl"@, "install"@, device, bundle], None)
    &&& stops_with(s[2], Failure::InstallFailed)
}

/// Guidance for the operator, then the launch with the console attached.
pub open spec fn is_launch_plan(s: Seq<Step>, device: Seq<char>) -> bool {
    &&& s.len() == 2
    &&& s[0].action is Say
    &&& s[0].action->Say_0 is LaunchGuidance
    &&& s[0].action->Say_0->LaunchGuidance_0@ == device
    &&& s[0].policy is Ignorable
    &&& runs(s[1], "xcrun"@, seq!["simctl"@, "launch"@, "--console"@, device, APP_BUNDLE_ID@], None)
    &&& stops_with(s[1], Failure::LaunchFailed)
}

/// The whole device lifecycle: boot, install, launch.
pub open spec fn is_device_plan(s: Seq<Step>, device: Seq<char>, bundle: Seq<char>) -> bool {
    &&& s.len() == 7
    &&& is_boot_plan(s.subrange(0, 2), device)
    &&& is_install_plan(s.subrange(2, 5), device, bundle)
    &&& is_launch_plan(s.subrange(5, 7), device)
}

/// Succeeds exactly on a macOS host.
pub fn ensure_macos(host_is_macos: bool) -> (r: Result<(), Failure>)
    ensures
        host_is_macos ==> r is Ok,
        !host_is_macos ==> r == Err::<(), Failure>(Failure::PlatformUnsupported),
{
    if host_is_macos {
        Ok(())
    } else {
        Err(Failure::PlatformUnsupported)
    }
}

fn step(action: Action, policy: Policy) -> (r: Step)
    ensures
        r == (Step { action, policy }),
{
    Step { action, policy }
}

/// The build output directory under `root`.
pub fn build_dir(root: &String) -> (r: String)
    ensures
        r@ == build_dir_of(root@),
{
    join(root, BUILD_DIR)
}

/// The compiled app bundle under `root`.
pub fn app_bundle_path(root: &String) -> (r: String)
    ensures
        r@ == app_path_of(root@),
{
    join(&build_dir(root), APP_SUFFIX)
}

/// Runs the runner build script, which must exist.
pub fn run_build_script(root: &String) -> (r: Vec<Step>)
    ensures
        is_script_plan(r@, root@),
{
    let r = vec![
        step(Action::Exists(join(root, SCRIPT_PATH)), Policy::Required(Failure::ScriptMissing)),
        step(Action::Run(script_cmd(root)), Policy::Required(Failure::ScriptFailed)),
    ];
    r
}

/// Builds the host project, which must exist, into `build_dir`.
pub fn run_xcodebuild(root: &String, build_dir: &String, destination: &String) -> (r: Vec<Step>)
    ensures
        is_xcodebuild_plan(r@, root@, build_dir@, destination@),
{
    let r = vec![
        step(Action::Exists(join(root, HOST_PROJECT)), Policy::Required(Failure::ProjectMissing)),
        step(
            Action::Run(xcodebuild_cmd(root, build_dir, destination)),
            Policy::Required(Failure::ToolFailed),
        ),
    ];
    r
}

/// The build stage: build script, staging, a clean build directory, the
/// host build for `destination`, and the check for the compiled bundle.
pub fn prepare_ios_build(root: &String, destination: &String) -> (r: Vec<Step>)
    ensures
        is_build_plan(r@, root@, destination@),
{
    let mut r = run_build_script(root);
    let paths = sync_paths(root);
    let blamed = paths.dest_dir.clone();
    r.push(step(Action::Sync(paths), Policy::Required(Failure::Sync(SyncFailure::Io(blamed)))));
    let dir = build_dir(root);
    r.push(step(Action::RemoveTree(dir.clone()), Policy::Required(Failure::RemoveFailed(dir.clone()))));
    let mut host = run_xcodebuild(root, &dir, destination);
    let ghost host_plan = host@;
    r.append(&mut host);
    r.push(step(Action::Exists(app_bundle_path(root)), Policy::Required(Failure::BundleNotFound)));
    assert(r@.subrange(4, 6) =~= host_plan);
    r
}

/// Boots the simulator, tolerating a failed boot, and waits until it is ready.
pub fn boot_simulator(device: &String) -> (r: Vec<Step>)
    ensures
        is_boot_plan(r@, device@),
{
    vec![
        step(Action::Run(boot_cmd(device)), Policy::IgnorableWithWarning),
        step(Action::Run(bootstatus_cmd(device)), Policy::Required(Failure::BootTimeout)),
    ]
}

/// Replaces any installed copy of the app with the bundle at `app_bundle`.
pub fn install_app(device: &String, app_bundle: &String) -> (r: Vec<Step>)
    ensures
        is_install_plan(r@, device@, app_bundle@),
{
    vec![
        step(Action::Exists(app_bundle.clone()), Policy::Required(Failure::BundleMissing)),
        step(Action::Run(uninstall_cmd(device)), Policy::Ignorable),
        step(Action::Run(install_cmd(device, app_bundle)), Policy::Required(Failure::InstallFailed)),
    ]
}

/// Launches the app with its console attached, after guidance for the operator.
pub fn launch_app(device: &String) -> (r: Vec<Step>)
    ensures
        is_launch_plan(r@, device@),
{
    vec![
        step(Action::Say(Notice::LaunchGuidance(device.clone())), Policy::Ignorable),
        step(Action::Run(launch_cmd(device)), Policy::Required(Failure::LaunchFailed)),
    ]
}

/// The device lifecycle stage for the bundle at `app_bundle`.
pub fn install_and_launch(device: &String, app_bundle: &String) -> (r: Vec<Step>)
    ensures
        is_device_plan(r@, device@, app_bundle@),
{
    let mut r = boot_simulator(device);
    let ghost boot = r@;
    let mut install = install_app(device, app_bundle);
    let ghost inst = install@;
    let mut launch = launch_app(device);
    let ghost lau = launch@;
    r.append(&mut install);
    r.append(&mut launch);
    assert(r@.subrange(0, 2) =~= boot);
    assert(r@.subrange(2, 5) =~= inst);
    assert(r@.subrange(5, 7) =~= lau);
    r
}

/// The smoke subcommand: the build stage, then word that it finished.
pub open spec fn is_smoke_plan(s: Seq<Step>, root: Seq<char>, config: Config) -> bool {
    &&& s.len() == 8
    &&& is_build_plan(s.subrange(0, 7), root, config.destination@)
    &&& s[7].action == Action::Say(Notice::SmokeFinished)
    &&& s[7].policy is Ignorable
}

/// The launch subcommand: the build stage, then the device lifecycle for the
/// bundle it built.
pub open spec fn is_launch_run_plan(s: Seq<Step>, root: Seq<char>, config: Config) -> bool {
    &&& s.len() == 14
    &&& is_build_plan(s.subrange(0, 7), root, config.destination@)
    &&& is_device_plan(s.subrange(7, 14), config.device@, app_path_of(root))
}

/// The bundler subcommand: one run of the bundler.
pub open spec fn is_bundle_plan(
    s: Seq<Step>,
    root: Seq<char>,
    config: Config,
    extra: Seq<String>,
) -> bool {
    &&& s.len() == 1
    &&& runs(s[0], "python3.11"@, bundler_args(config.manifest@) + words(extra), Some(root))
    &&& stops_with(s[0], Failure::BundlerFailed)
}

/// Plans the smoke build; nothing is planned off macOS.
pub fn sim_smoke(host_is_macos: bool, root: &String, config: &Config) -> (r: Result<
    Vec<Step>,
    Failure,
>)
    ensures
        !host_is_macos ==> r == Err::<Vec<Step>, Failure>(Failure::PlatformUnsupported),
        host_is_macos ==> r is Ok && is_smoke_plan(r->Ok_0@, root@, *config),
{
    ensure_macos(host_is_macos)?;
    let mut r = prepare_ios_build(root, &config.destination);
    let ghost build = r@;
    r.push(step(Action::Say(Notice::SmokeFinished), Policy::Ignorable));
    assert(r@.subrange(0, 7) =~= build);
    Ok(r)
}

/// Plans the build followed by install and launch in the configured
/// simulator; nothing is planned off macOS.
pub fn sim_launch(host_is_macos: bool, root: &String, config: &Config) -> (r: Result<
    Vec<Step>,
    Failure,
>)
    ensures
        !host_is_macos ==> r == Err::<Vec<Step>, Failure>(Failure::PlatformUnsupported),
        host_is_macos ==> r is Ok && is_launch_run_plan(r->Ok_0@, root@, *config),
{
    ensure_macos(host_is_macos)?;
    let mut r = prepare_ios_build(root, &config.destination);
    let ghost build = r@;
    let mut device = install_and_launch(&config.device, &app_bundle_path(root));
    let ghost dev = device@;
    r.append(&mut device);
    assert(r@.subrange(0, 7) =~= build);
    assert(r@.subrange(7, 14) =~= dev);
    Ok(r)
}

/// Plans the delegated bundler run with `extra` passed through; nothing is
/// planned off macOS.
pub fn bundle_run(host_is_macos: bool, root: &String, config: &Config, extra: &Vec<String>) -> (r:
    Result<Vec<Step>, Failure>)
    ensures
        !host_is_macos ==> r == Err::<Vec<Step>, Failure>(Failure::PlatformUnsupported),
        host_is_macos ==> r is Ok && is_bundle_plan(r->Ok_0@, root@, *config, extra@),
{
    ensure_macos(host_is_macos)?;
    Ok(
        vec![
            step(
                Action::Run(bundler_cmd(root, &config.manifest, extra)),
                Policy::Required(Failure::BundlerFailed),
            ),
        ],
    )
}

/// When every step of the build stage succeeds, the host build included,
/// but the compiled bundle is not on disk, the stage fails with
/// `BundleNotFound`.
pub proof fn lemma_missing_bundle_fails_build(
    s: Seq<Step>,
    root: Seq<char>,
    destination: Seq<char>,
    outcomes: Seq<Outcome>,
)
    requires
        is_build_plan(s, root, destination),
        outcomes.len() == 7,
        forall|i: int| 0 <= i < 6 ==> #[trigger] outcomes[i] == Outcome::Succeeded,
        outcomes[6] == Outcome::Failed,
    ensures
        run_result(s, outcomes) == Err::<(), Failure>(Failure::BundleNotFound),
{
    assert(s.skip(0) =~= s);
    assert(outcomes.skip(0) =~= outcomes);
    lemma_run_result_from(s, outcomes, 0, 6);
    assert(s[6] == s.skip(6)[0]);
    assert(outcomes[6] == outcomes.skip(6)[0]);
}

/// A failed boot does not fail the device lifecycle when the wait for the
/// boot and every later required step succeed; whether the uninstall
/// succeeded does not matter either.
pub proof fn lemma_boot_failure_absorbed(
    s: Seq<Step>,
    device: Seq<char>,
    bundle: Seq<char>,
    outcomes: Seq<Outcome>,
)
    requires
        is_device_plan(s, device, bundle),
        outcomes.len() == 7,
        outcomes[1] == Outcome::Succeeded,
        outcomes[2] == Outcome::Succeeded,
        forall|i: int| 4 <= i < 7 ==> #[trigger] outcomes[i] == Outcome::Succeeded,
    ensures
        run_result(s, outcomes) == Ok::<(), Failure>(()),
{
    assert(s[0] == s.subrange(0, 2)[0]);
    assert(s[3] == s.subrange(2, 5)[1]);
    assert(s.skip(0) =~= s);
    assert(outcomes.skip(0) =~= outcomes);
    lemma_run_result_from(s, outcomes, 0, 7);
    assert(s.skip(7).len() == 0);
}

/// When the wait for the boot fails, the device lifecycle fails with
/// `BootTimeout`, whatever came of the boot itself.
pub proof fn lemma_wait_failure_is_boot_timeout(
    s: Seq<Step>,
    device: Seq<char>,
    bundle: Seq<char>,
    outcomes: Seq<Outcome>,
)
    requires
        is_device_plan(s, device, bundle),
        outcomes.len() == 7,
        outcomes[1] == Outcome::Failed,
    ensures
        run_result(s, outcomes) == Err::<(), Failure>(Failure::BootTimeout),
{
    assert(s[0] == s.subrange(0, 2)[0]);
    assert(s[1] == s.subrange(0, 2)[1]);
    lemma_run_result_from(s, outcomes, 0, 1);
    assert(s[1] == s.skip(1)[0]);
    assert(outcomes[1] == outcomes.skip(1)[0]);
}

/// Steps `i` up to `j` that none of them stops leave the run's result to the
/// steps from `j` on.
proof fn lemma_run_result_from(s: Seq<Step>, outcomes: Seq<Outcome>, i: int, j: int)
    requires
        0 <= i <= j <= s.len(),
        s.len() == outcomes.len(),
        forall|k: int| i <= k < j ==> !(verdict(#[trigger] s[k], outcomes[k]) is Stop),
    ensures
        run_result(s.skip(i), outcomes.skip(i)) == run_result(s.skip(j), outcomes.skip(j)),
    decreases j - i,
{
    if i < j {
        assert(s.skip(i).drop_first() =~= s.skip(i + 1));
        assert(outcomes.skip(i).drop_first() =~= outcomes.skip(i + 1));
        assert(s.skip(i)[0] == s[i]);
        assert(outcomes.skip(i)[0] == outcomes[i]);
        lemma_run_result_from(s, outcomes, i + 1, j);
    }
    assert(s.skip(0) =~= s);
    assert(outcomes.skip(0) =~= outcomes);
}

} // verus!
