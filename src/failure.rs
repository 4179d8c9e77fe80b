use vstd::prelude::*;

verus! {

/// Why staging the runner artifacts into the host project failed.
#[derive(Debug, Clone, PartialEq, Eq)]
pub enum SyncFailure {
    /// The library bundle or its header has not been produced yet.
    MissingSource,
    /// A filesystem operation on the given path failed.
    Io(String),
}

/// Every way a run of the orchestration can end unsuccessfully.
#[derive(Debug, Clone, PartialEq, Eq)]
pub enum Failure {
    /// The host is not macOS, so neither Xcode nor the simulator is available.
    PlatformUnsupported,
    /// The runner build script is absent.
    ScriptMissing,
    /// The runner build script exited unsuccessfully.
    ScriptFailed,
    /// Staging the artifacts failed.
    Sync(SyncFailure),
    /// The stale build directory at the given path could not be removed.
    RemoveFailed(String),
    /// The host Xcode project is absent.
    ProjectMissing,
    /// `xcodebuild` exited unsuccessfully.
    ToolFailed,
    /// `xcodebuild` reported success but the app bundle is not on disk.
    BundleNotFound,
    /// The simulator never reported that it finished booting.
    BootTimeout,
    /// The app bundle to install is not on disk.
    BundleMissing,
    /// Installing the app into the simulator failed.
    InstallFailed,
    /// Launching the app in the simulator failed.
    LaunchFailed,
    /// The delegated bundler exited unsuccessfully.
    BundlerFailed,
    /// The command line matched no subcommand.
    InvalidArguments(Vec<String>),
}

} // verus!
