//! Validation of server names against transport-layer naming rules.

use vstd::prelude::*;

verus! {

/// Whether a string is a syntactically valid DNS name for use as a TLS
/// server name. The judgment is a pure function of the characters alone.
pub uninterp spec fn dns_name_ok(s: Seq<char>) -> bool;

/// Relies on webpki's `DnsNameRef::try_from_ascii_str`: a purely syntactic
/// validity check of the name, a function of the characters alone.
#[verifier::external_body]
pub fn dns_name_is_valid(domain: &str) -> (r: bool)
    ensures
        r == dns_name_ok(domain@),
{
    webpki::DnsNameRef::try_from_ascii_str(domain).is_ok()
}

} // verus!
