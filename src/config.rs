use vstd::prelude::*;

verus! {

/// The `xcodebuild` destination used when none is configured.
pub const DEFAULT_DESTINATION: &'static str = "platform=iOS Simulator,name=iPhone 16";
/// The simulator used when none is configured.
pub const DEFAULT_DEVICE: &'static str = "iPhone 16";
/// The demo app's manifest handed to the bundler when none is configured,
/// relative to the workspace root.
pub const DEFAULT_MANIFEST: &'static str = "apps/eframe-ios-app/Cargo.toml";

/// The settings an operator may override, resolved once at startup.
#[derive(Debug, Clone, PartialEq, Eq)]
pub struct Config {
    /// The `-destination` given to `xcodebuild`.
    pub destination: String,
    /// The name of the simulator to boot, install into and launch in.
    pub device: String,
    /// The manifest handed to the bundler.
    pub manifest: String,
}

/// The override when one is given, else the default.
pub open spec fn chosen(given: Option<String>, default: Seq<char>) -> Seq<char> {
    match given {
        Some(s) => s@,
        None => default,
    }
}

fn or_default(given: Option<String>, default: &str) -> (r: String)
    ensures
        r@ == chosen(given, default@),
{
    match given {
        Some(s) => s,
        None => String::from_str(default),
    }
}

impl Config {
    /// Resolves each setting from its override, when one is set.
    pub fn resolve(
        destination: Option<String>,
        device: Option<String>,
        manifest: Option<String>,
    ) -> (r: Config)
        ensures
            r.destination@ == chosen(destination, DEFAULT_DESTINATION@),
            r.device@ == chosen(device, DEFAULT_DEVICE@),
            r.manifest@ == chosen(manifest, DEFAULT_MANIFEST@),
    {
        Config {
            destination: or_default(destination, DEFAULT_DESTINATION),
            device: or_default(device, DEFAULT_DEVICE),
            manifest: or_default(manifest, DEFAULT_MANIFEST),
        }
    }
}

} // verus!
