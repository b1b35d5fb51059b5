//! Operating-system families and their display names.
use vstd::prelude::*;
use vstd::string::*;
use crate::text::same_text;

verus! {

/// The operating-system family the shell runs on. `Any` stands for
/// "every platform" when it tags a package manager, and for an unknown
/// system when it is detected.
#[derive(Clone, Copy, Debug, PartialEq, Eq, Structural)]
pub enum Platform {
    Windows,
    Linux,
    MacOS,
    Any,
}

/// The platform that an operating-system identifier (as Rust's
/// `std::env::consts::OS` spells it) stands for.
pub open spec fn platform_of(os: Seq<char>) -> Platform {
    if os == "windows"@ {
        Platform::Windows
    } else if os == "linux"@ {
        Platform::Linux
    } else if os == "macos"@ {
        Platform::MacOS
    } else {
        Platform::Any
    }
}

/// The display name of a platform.
pub open spec fn platform_name(p: Platform) -> Seq<char> {
    match p {
        Platform::Windows => "Windows"@,
        Platform::Linux => "Linux"@,
        Platform::MacOS => "MacOS"@,
        Platform::Any => "Any"@,
    }
}

/// Detects the platform from the operating-system identifier the host
/// reports (`"windows"`, `"linux"`, `"macos"`, ...).
pub fn get_current_platform(os: &str) -> (r: Platform)
    ensures
        r == platform_of(os@),
{
    if same_text(os, "windows") {
        Platform::Windows
    } else if same_text(os, "linux") {
        Platform::Linux
    } else if same_text(os, "macos") {
        Platform::MacOS
    } else {
        Platform::Any
    }
}

/// The name under which the shell reports a platform.
pub fn get_platform_name(platform: &Platform) -> (r: String)
    ensures
        r@ == platform_name(*platform),
{
    match platform {
        Platform::Windows => "Windows".to_owned(),
        Platform::Linux => "Linux".to_owned(),
        Platform::MacOS => "MacOS".to_owned(),
        Platform::Any => "Any".to_owned(),
    }
}

} // verus!
