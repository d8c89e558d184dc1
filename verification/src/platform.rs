//! The operating-system/architecture combinations the application ships on,
//! and the capability check that gates the embedded database.

use vstd::prelude::*;

verus! {

/// A supported operating-system/architecture combination.
#[derive(Clone, Copy, PartialEq, Eq, Structural, Debug)]
pub enum Platform {
    LinuxX64,
    LinuxArm64,
    MacX64,
    MacArm64,
    WindowsX64,
}

/// Whether the embedded graph database is available on `p`.
/// Every platform supports it except Windows, which is excluded.
pub open spec fn spec_supports_database(p: Platform) -> bool {
    p !is WindowsX64
}

/// Runtime capability check for the optional database dependent.
pub fn supports_database(p: Platform) -> (b: bool)
    ensures
        b == spec_supports_database(p),
{
    match p {
        Platform::WindowsX64 => false,
        _ => true,
    }
}

} // verus!
