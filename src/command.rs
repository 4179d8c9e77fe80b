use vstd::prelude::*;

use crate::paths::{join, joined, HOST_PROJECT, SCRIPT_PATH};

verus! {

/// The payload app's bundle identifier, used to uninstall, install and launch it.
pub const APP_BUNDLE_ID: &'static str = "com.egui.RunnerSmoke";
/// The scheme `xcodebuild` builds.
pub const HOST_SCHEME: &'static str = "RunnerSmoke";
/// The configuration `xcodebuild` builds.
pub const CONFIGURATION: &'static str = "Debug";

/// One external process to spawn: its program, its arguments, and the
/// directory it runs in (`None`: the caller's own).
#[derive(Debug, Clone, PartialEq, Eq)]
pub struct CommandSpec {
    pub program: String,
    pub args: Vec<String>,
    pub cwd: Option<String>,
}

/// The characters of each argument.
pub open spec fn words(v: Seq<String>) -> Seq<Seq<char>> {
    v.map_values(|s: String| s@)
}

/// What `bash` receives to run the runner build script.
pub open spec fn script_args(root: Seq<char>) -> Seq<Seq<char>> {
    seq![joined(root, SCRIPT_PATH@)]
}

/// What `xcodebuild` receives to build the host app into `build_dir`.
pub open spec fn xcodebuild_args(
    root: Seq<char>,
    build_dir: Seq<char>,
    destination: Seq<char>,
) -> Seq<Seq<char>> {
    seq![
        "-project"@,
        joined(root, HOST_PROJECT@),
        "-scheme"@,
        HOST_SCHEME@,
        "-configuration"@,
        CONFIGURATION@,
        "-destination"@,
        destination,
        "BUILD_DIR="@ + build_dir,
    ]
}

/// What the delegated bundler receives, before the pass-through arguments.
pub open spec fn bundler_args(manifest: Seq<char>) -> Seq<Seq<char>> {
    seq!["ios-cargo"@, "--manifest-path"@, manifest, "run"@, "--sim"@]
}

fn word(s: &str) -> (r: String)
    ensures
        r@ == s@,
{
    String::from_str(s)
}

/// `xcrun simctl` followed by `rest`, run in the caller's directory.
pub fn simctl_cmd(rest: Vec<String>) -> (r: CommandSpec)
    ensures
        r.program@ == "xcrun"@,
        words(r.args@) == seq!["simctl"@] + words(rest@),
        r.cwd.is_none(),
{
    let mut args: Vec<String> = vec![word("simctl")];
    let mut i: usize = 0;
    while i < rest.len()
        invariant
            i <= rest@.len(),
            args@.len() == 1 + i,
            args@[0]@ == "simctl"@,
            forall|j: int| 0 <= j < i ==> args@[j + 1]@ == #[trigger] rest@[j]@,
        decreases rest@.len() - i,
    {
        args.push(rest[i].clone());
        i = i + 1;
    }
    assert(words(args@) =~= seq!["simctl"@] + words(rest@));
    CommandSpec { program: word("xcrun"), args, cwd: None }
}

/// Boots the named simulator.
pub fn boot_cmd(device: &String) -> (r: CommandSpec)
    ensures
        r.program@ == "xcrun"@,
        words(r.args@) == seq!["simctl"@, "boot"@, device@],
        r.cwd.is_none(),
{
    let r = simctl_cmd(vec![word("boot"), device.clone()]);
    assert(words(r.args@) =~= seq!["simctl"@, "boot"@, device@]);
    r
}

/// Blocks until the named simulator reports that it finished booting.
pub fn bootstatus_cmd(device: &String) -> (r: CommandSpec)
    ensures
        r.program@ == "xcrun"@,
        words(r.args@) == seq!["simctl"@, "bootstatus"@, device@, "-b"@],
        r.cwd.is_none(),
{
    let r = simctl_cmd(vec![word("bootstatus"), device.clone(), word("-b")]);
    assert(words(r.args@) =~= seq!["simctl"@, "bootstatus"@, device@, "-b"@]);
    r
}

/// Removes the payload app from the named simulator.
pub fn uninstall_cmd(device: &String) -> (r: CommandSpec)
    ensures
        r.program@ == "xcrun"@,
        words(r.args@) == seq!["simctl"@, "uninstall"@, device@, APP_BUNDLE_ID@],
        r.cwd.is_none(),
{
    let r = simctl_cmd(vec![word("uninstall"), device.clone(), word(APP_BUNDLE_ID)]);
    assert(words(r.args@) =~= seq!["simctl"@, "uninstall"@, device@, APP_BUNDLE_ID@]);
    r
}

/// Installs the bundle at `bundle` into the named simulator.
pub fn install_cmd(device: &String, bundle: &String) -> (r: CommandSpec)
    ensures
        r.program@ == "xcrun"@,
        words(r.args@) == seq!["simctl"@, "install"@, device@, bundle@],
        r.cwd.is_none(),
{
    let r = simctl_cmd(vec![word("install"), device.clone(), bundle.clone()]);
    assert(words(r.args@) =~= seq!["simctl"@, "install"@, device@, bundle@]);
    r
}

/// Launches the payload app in the named simulator with its console attached.
pub fn launch_cmd(device: &String) -> (r: CommandSpec)
    ensures
        r.program@ == "xcrun"@,
        words(r.args@) == seq!["simctl"@, "launch"@, "--console"@, device@, APP_BUNDLE_ID@],
        r.cwd.is_none(),
{
    let r = simctl_cmd(vec![word("launch"), word("--console"), device.clone(), word(APP_BUNDLE_ID)]);
    assert(words(r.args@) =~= seq!["simctl"@, "launch"@, "--console"@, device@, APP_BUNDLE_ID@]);
    r
}

/// Runs the runner build script with `bash` from the workspace root.
pub fn script_cmd(root: &String) -> (r: CommandSpec)
    ensures
        r.program@ == "bash"@,
        words(r.args@) == script_args(root@),
        r.cwd == Some(*root),
{
    let args: Vec<String> = vec![join(root, SCRIPT_PATH)];
    assert(words(args@) =~= script_args(root@));
    CommandSpec { program: word("bash"), args, cwd: Some(root.clone()) }
}

/// Builds the host app with `xcodebuild` into `build_dir`, for `destination`.
pub fn xcodebuild_cmd(root: &String, build_dir: &String, destination: &String) -> (r: CommandSpec)
    ensures
        r.program@ == "xcodebuild"@,
        words(r.args@) == xcodebuild_args(root@, build_dir@, destination@),
        r.cwd == Some(*root),
{
    let setting = word("BUILD_DIR=").concat(build_dir.as_str());
    let args: Vec<String> = vec![
        word("-project"),
        join(root, HOST_PROJECT),
        word("-scheme"),
        word(HOST_SCHEME),
        word("-configuration"),
        word(CONFIGURATION),
        word("-destination"),
        destination.clone(),
        setting,
    ];
    assert(words(args@) =~= xcodebuild_args(root@, build_dir@, destination@));
    CommandSpec { program: word("xcodebuild"), args, cwd: Some(root.clone()) }
}

/// Hands the demo bundle to `ios-cargo`, with `extra` passed through.
pub fn bundler_cmd(root: &String, manifest: &String, extra: &Vec<String>) -> (r: CommandSpec)
    ensures
        r.program@ == "python3.11"@,
        words(r.args@) == bundler_args(manifest@) + words(extra@),
        r.cwd == Some(*root),
{
    let mut args: Vec<String> = vec![
        word("ios-cargo"),
        word("--manifest-path"),
        manifest.clone(),
        word("run"),
        word("--sim"),
    ];
    assert(words(args@) =~= bundler_args(manifest@));
    let mut i: usize = 0;
    while i < extra.len()
        invariant
            i <= extra@.len(),
            args@.len() == 5 + i,
            forall|j: int| 0 <= j < 5 ==> #[trigger] args@[j]@ == bundler_args(manifest@)[j],
            forall|j: int| 0 <= j < i ==> args@[j + 5]@ == #[trigger] extra@[j]@,
        decreases extra@.len() - i,
    {
        args.push(extra[i].clone());
        i = i + 1;
    }
    assert(words(args@) =~= bundler_args(manifest@) + words(extra@));
    CommandSpec { program: word("python3.11"), args, cwd: Some(root.clone()) }
}

} // verus!
