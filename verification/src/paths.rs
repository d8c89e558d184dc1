//! Path resolution: the on-disk location of the bundled graph-engine module
//! for the running platform, and the persistent data directory the database
//! process writes to.  Both are computed once at startup and read-only
//! afterwards; the directory itself is created by the shell when the
//! supervisor asks for it.

use vstd::prelude::*;
use vstd::string::*;

use crate::platform::{Platform, spec_supports_database};

verus! {

/// A path the resolver may hand out: non-empty and free of NUL characters,
/// which no operating system accepts inside a path.
pub open spec fn valid_path(s: Seq<char>) -> bool {
    &&& s.len() > 0
    &&& forall|i: int| 0 <= i < s.len() ==> s[i] != '\u{0}'
}

/// File name of the bundled graph-engine module for platform `p`.
pub open spec fn spec_module_file_name(p: Platform) -> Seq<char> {
    match p {
        Platform::LinuxX64 => "graph-engine-linux-x64.so"@,
        Platform::LinuxArm64 => "graph-engine-linux-arm64.so"@,
        Platform::MacX64 => "graph-engine-macos-x64.dylib"@,
        Platform::MacArm64 => "graph-engine-macos-arm64.dylib"@,
        Platform::WindowsX64 => ""@,
    }
}

/// Full path of the graph-engine module: the application's resource
/// directory, a separator, and the platform-specific file name.
pub open spec fn spec_module_path(resource_dir: Seq<char>, p: Platform) -> Seq<char> {
    resource_dir + "/"@ + spec_module_file_name(p)
}

/// Path of the database's persistent data directory under the per-user
/// local-data root.
pub open spec fn spec_data_dir(local_data_root: Seq<char>) -> Seq<char> {
    local_data_root + "/cvprd/graphdb"@
}

/// The platform-specific module file name.  The database is never launched
/// on the excluded platform, so no name is defined there.
pub fn module_file_name(p: Platform) -> (r: &'static str)
    requires
        spec_supports_database(p),
    ensures
        r@ == spec_module_file_name(p),
{
    match p {
        Platform::LinuxX64 => "graph-engine-linux-x64.so",
        Platform::LinuxArm64 => "graph-engine-linux-arm64.so",
        Platform::MacX64 => "graph-engine-macos-x64.dylib",
        Platform::MacArm64 => "graph-engine-macos-arm64.dylib",
        Platform::WindowsX64 => "",
    }
}

/// Resolves the on-disk location of the bundled graph-engine module.
pub fn resolve_module_path(resource_dir: &str, p: Platform) -> (r: String)
    requires
        spec_supports_database(p),
    ensures
        r@ == spec_module_path(resource_dir@, p),
{
    let base: String = String::from_str(resource_dir).concat("/");
    base.concat(module_file_name(p))
}

/// Resolves the database's persistent data directory.
pub fn data_dir(local_data_root: &str) -> (r: String)
    ensures
        r@ == spec_data_dir(local_data_root@),
{
    String::from_str(local_data_root).concat("/cvprd/graphdb")
}

/// On every platform in the supported set the resolver yields
/// syntactically valid paths for the module location and the data
/// directory, provided the roots it starts from are themselves valid.
pub proof fn lemma_resolved_paths_valid(resource_dir: Seq<char>, local_data_root: Seq<char>, p: Platform)
    requires
        spec_supports_database(p),
        valid_path(resource_dir),
        valid_path(local_data_root),
    ensures
        valid_path(spec_module_path(resource_dir, p)),
        valid_path(spec_data_dir(local_data_root)),
{
    reveal_strlit("/");
    reveal_strlit("graph-engine-linux-x64.so");
    reveal_strlit("graph-engine-linux-arm64.so");
    reveal_strlit("graph-engine-macos-x64.dylib");
    reveal_strlit("graph-engine-macos-arm64.dylib");
    reveal_strlit("/cvprd/graphdb");
    assert(spec_module_path(resource_dir, p).len() > 0);
    assert(spec_data_dir(local_data_root).len() > 0);
}

} // verus!
