//! The two trivial commands the shell exposes besides the launcher: the
//! build's version string and a microphone-permission stub.

use vstd::prelude::*;

verus! {

/// The version string this build declares.
pub open spec fn spec_app_version() -> Seq<char> {
    "0.1.0"@
}

/// Returns the build's declared version. Touches nothing outside the process:
/// no network, no filesystem.
pub fn get_app_version() -> (r: String)
    ensures
        r@ == spec_app_version(),
{
    "0.1.0".to_owned()
}

/// Microphone-permission stub: reports the permission as granted on every
/// call, without consulting any platform permission service. A real check
/// would live in the host layer; the shell's callers only see this constant.
pub fn check_microphone_permission() -> (r: bool)
    ensures
        r == true,
{
    true
}

} // verus!
