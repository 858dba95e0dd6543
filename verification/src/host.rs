//! The name of the local host, which labels every metric as its zone name.

use vstd::prelude::*;
use vstd::string::StringExecFns;

verus! {

/// The zone name used where the host name cannot be had.
pub const UNKNOWN_ZONENAME: &'static str = "unknown";

/// `gethostname::gethostname`, with the name converted by
/// `OsString::into_string`: the host name, or nothing where the name is not
/// valid Unicode. Nothing is assumed of the name: it belongs to the machine.
/// The outside function stops the process with a panic where the operating
/// system itself refuses to give the name.
#[verifier::external_body]
pub(crate) fn local_hostname() -> (resolved: Option<String>) {
    gethostname::gethostname().into_string().ok()
}

/// The zone name for a host name that was or was not resolved.
pub open spec fn zonename_of(resolved: Option<String>) -> Seq<char> {
    match resolved {
        Some(hostname) => hostname@,
        None => UNKNOWN_ZONENAME@,
    }
}

/// Picks the zone name: the host name where it was resolved, the placeholder
/// where it was not.
pub fn zonename_from(resolved: Option<String>) -> (zonename: String)
    ensures
        zonename@ == zonename_of(resolved),
{
    match resolved {
        Some(hostname) => hostname,
        None => String::from_str(UNKNOWN_ZONENAME),
    }
}

} // verus!
