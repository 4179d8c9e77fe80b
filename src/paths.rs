use vstd::prelude::*;

verus! {

/// The runner build script, relative to the workspace root.
pub const SCRIPT_PATH: &'static str = "scripts/build_ios_runner.sh";
/// The library bundle the build script produces.
pub const XCFRAMEWORK_SRC: &'static str = "target/ios/EframeIos.xcframework";
/// The C header the build script produces.
pub const HEADER_SRC: &'static str = "target/ios/eframe_ios_runner.h";
/// The host Xcode project.
pub const HOST_PROJECT: &'static str = "ios/runner-smoke/RunnerSmoke.xcodeproj";
/// Where the host project expects the library bundle.
pub const HOST_FRAMEWORK_DST: &'static str = "ios/runner-smoke/Frameworks/EframeIos.xcframework";
/// Where the host project expects the header.
pub const HOST_HEADER_DST: &'static str = "ios/runner-smoke/Generated/eframe_ios_runner.h";
/// The build output directory handed to `xcodebuild`.
pub const BUILD_DIR: &'static str = "target/ios-smoke-build";
/// The compiled app bundle, relative to the build output directory.
pub const APP_SUFFIX: &'static str = "Debug-iphonesimulator/RunnerSmoke.app";

/// `base` followed by a separator and `rel`.
pub open spec fn joined(base: Seq<char>, rel: Seq<char>) -> Seq<char> {
    base + seq!['/'] + rel
}

/// Appends the relative path `rel` to `base`.
pub fn join(base: &String, rel: &str) -> (r: String)
    ensures
        r@ == joined(base@, rel@),
{
    let mut s = base.clone();
    let sep = "/";
    proof {
        reveal_strlit("/");
    }
    s.append(sep);
    s.append(rel);
    s
}

} // verus!
