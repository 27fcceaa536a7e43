//! The kind of desktop session the launcher is installed into.

use vstd::prelude::*;
use vstd::string::StringExecFns;

verus! {

/// The lowercase form of `s`, as std's `str::to_lowercase` gives it: the
/// Unicode lowercase mapping, applied to the whole string.
pub uninterp spec fn lowercased(s: Seq<char>) -> Seq<char>;

/// Calls `str::to_lowercase` of std. Not proved: that the result depends on
/// nothing but the characters of `s`.
#[verifier::external_body]
fn to_lowercase(s: &str) -> (lower: String)
    ensures
        lower@ == lowercased(s@),
{
    s.to_lowercase()
}

/// Whether `lowered`, a session type in lowercase, names Wayland.
pub fn names_wayland(lowered: &str) -> (wayland: bool)
    ensures
        wayland == (lowered@ == "wayland"@),
{
    String::from_str(lowered) == String::from_str("wayland")
}

/// Whether the session type, as the environment gives it in
/// `XDG_SESSION_TYPE`, is Wayland. The comparison ignores case; a session
/// without a type is not Wayland.
pub fn is_wayland(session_type: Option<&str>) -> (wayland: bool)
    ensures
        wayland == match session_type {
            Some(session) => lowercased(session@) == "wayland"@,
            None => false,
        },
{
    match session_type {
        Some(session) => {
            let lowered = to_lowercase(session);
            names_wayland(lowered.as_str())
        },
        None => false,
    }
}

} // verus!
