//! What the client tells the service about where it runs.

use vstd::prelude::*;
use crate::text::owned;

verus! {

/// The editor family the client presents itself as.
#[derive(Debug, Clone, Copy, PartialEq, Eq, Structural)]
pub enum IdeCategory {
    VsCode,
    JetBrains,
}

/// The operating system the client runs on.
#[derive(Debug, Clone, Copy, PartialEq, Eq, Structural)]
pub enum OperatingSystem {
    Linux,
    Windows,
    Macos,
}

/// Client identification sent with requests.
#[derive(Debug, Clone)]
pub struct UserContext {
    pub ide_category: IdeCategory,
    pub operating_system: OperatingSystem,
    pub product: String,
}

impl UserContext {
    /// The context of the Zed editor on `operating_system`: presented as a
    /// VS Code-family editor, product `Zed`.
    pub fn for_zed(operating_system: OperatingSystem) -> (c: Self)
        ensures
            c.ide_category == IdeCategory::VsCode,
            c.operating_system == operating_system,
            c.product@ == "Zed"@,
    {
        UserContext { ide_category: IdeCategory::VsCode, operating_system, product: owned("Zed") }
    }
}

/// The name of an operating system in requests.
pub open spec fn os_name(os: OperatingSystem) -> Seq<char> {
    match os {
        OperatingSystem::Linux => "linux"@,
        OperatingSystem::Windows => "windows"@,
        OperatingSystem::Macos => "macos"@,
    }
}

/// The name of an operating system in requests.
pub fn os_name_of(os: OperatingSystem) -> (r: String)
    ensures
        r@ == os_name(os),
{
    match os {
        OperatingSystem::Linux => owned("linux"),
        OperatingSystem::Windows => owned("windows"),
        OperatingSystem::Macos => owned("macos"),
    }
}

} // verus!
