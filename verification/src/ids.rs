use vstd::prelude::*;

verus! {

/// The authority (host) component of the text when it parses as an absolute
/// URL with a host, `None` otherwise. The result depends on the text alone.
pub uninterp spec fn authority_of(s: Seq<char>) -> Option<Seq<char>>;

/// Relies on `url::Url::parse` and `url::Url::host_str`: extracting the host
/// component of a protocol identifier, `None` when the text does not parse as
/// a URL or has no host.
#[verifier::external_body]
fn host_of(s: &str) -> (r: Option<String>)
    ensures
        r is Some <==> authority_of(s@) is Some,
        r matches Some(h) ==> authority_of(s@) == Some(h@),
{
    match url::Url::parse(s) {
        Ok(u) => u.host_str().map(|h| h.to_string()),
        Err(_) => None,
    }
}

/// Both texts name a host, and it is the same one. This is the check applied
/// to an inbound object's declared identifier against the domain the fetch
/// was actually performed against: a mismatch is a verification failure and
/// is never silently corrected.
pub open spec fn same_authority(a: Seq<char>, b: Seq<char>) -> bool {
    authority_of(a) is Some && authority_of(a) == authority_of(b)
}

/// Compares the authorities of two protocol identifiers.
pub fn domains_match(a: &str, b: &str) -> (r: bool)
    ensures
        r == same_authority(a@, b@),
{
    let ha = host_of(a);
    let hb = host_of(b);
    match (ha, hb) {
        (Some(x), Some(y)) => x == y,
        _ => false,
    }
}

} // verus!
