//! Resolution of the file path that a flush writes to.
//!
//! A buffer may carry its own target path; when it carries none, the flush
//! falls back to a per-platform log directory, with a fixed file name
//! appended so that the target is a file and not a bare directory.

use vstd::prelude::*;
use vstd::string::StringExecFns;

verus! {

/// The platform family a flush target is resolved for.
#[derive(Clone, Copy, Debug, PartialEq, Eq, Structural)]
pub enum Platform {
    Windows,
    MacOs,
    Unix,
}

/// The platform's conventional log directory.
pub open spec fn spec_default_log_path(platform: Platform) -> Seq<char> {
    match platform {
        Platform::Windows => "C:\\ProgramData\\Logs"@,
        Platform::MacOs => "/Library/Logs"@,
        Platform::Unix => "/var/log"@,
    }
}

/// The fixed file name appended to the default directory, with the
/// platform's path separator in front.
pub open spec fn spec_default_file_name(platform: Platform) -> Seq<char> {
    match platform {
        Platform::Windows => "\\log.txt"@,
        Platform::MacOs => "/log.txt"@,
        Platform::Unix => "/log.txt"@,
    }
}

/// The full default flush target: the platform's log directory plus the
/// fixed file name.
pub open spec fn spec_default_target(platform: Platform) -> Seq<char> {
    spec_default_log_path(platform) + spec_default_file_name(platform)
}

/// The platform's conventional log directory, used when a buffer was given
/// no target path of its own.
pub fn default_log_path(platform: Platform) -> (r: String)
    ensures
        r@ == spec_default_log_path(platform),
{
    match platform {
        Platform::Windows => String::from_str("C:\\ProgramData\\Logs"),
        Platform::MacOs => String::from_str("/Library/Logs"),
        Platform::Unix => String::from_str("/var/log"),
    }
}

/// The full default flush target for `platform`.
pub fn default_target(platform: Platform) -> (r: String)
    ensures
        r@ == spec_default_target(platform),
{
    let dir = default_log_path(platform);
    match platform {
        Platform::Windows => dir.concat("\\log.txt"),
        Platform::MacOs => dir.concat("/log.txt"),
        Platform::Unix => dir.concat("/log.txt"),
    }
}

/// The path a flush resolves: the buffer's own path when one was set, the
/// platform default otherwise.
pub open spec fn spec_resolve_target(file_path: Option<Seq<char>>, platform: Platform) -> Seq<
    char,
> {
    match file_path {
        Option::Some(p) => p,
        Option::None => spec_default_target(platform),
    }
}

/// Resolves the flush target from a buffer's configured path.
pub fn resolve_target(file_path: &Option<String>, platform: Platform) -> (r: String)
    ensures
        r@ == spec_resolve_target(file_path.deep_view(), platform),
{
    match file_path {
        Option::Some(p) => p.clone(),
        Option::None => default_target(platform),
    }
}

} // verus!
