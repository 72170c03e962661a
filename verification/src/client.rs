//! Selecting an IP version, mapping it to its fixed ipify endpoint, and
//! completing a fetch from the transport's outcome.

use vstd::prelude::*;
use vstd::string::*;

use crate::error::Error;
use crate::error::spec_message;

verus! {

broadcast use vstd::string::group_string_axioms;

/// The IP address family to look up: IPv4 or IPv6.
#[derive(Clone, Copy, Debug, PartialEq, Eq, Structural)]
pub enum IpVersion {
    V4,
    V6,
}

/// Whether two string slices hold the same characters.
fn str_eq(a: &str, b: &str) -> (r: bool)
    ensures
        r == (a@ == b@),
{
    let a_len: usize = a.unicode_len();
    let b_len: usize = b.unicode_len();
    if a_len != b_len {
        return false;
    }
    let mut i: usize = 0;
    while i < a_len
        invariant
            a@.len() == a_len,
            b@.len() == b_len,
            a_len == b_len,
            i <= a_len,
            forall|j: int| 0 <= j < i ==> a@[j] == b@[j],
        decreases a_len - i,
    {
        if a.get_char(i) != b.get_char(i) {
            return false;
        }
        i = i + 1;
    }
    proof {
        assert(a@ =~= b@);
    }
    true
}

impl IpVersion {
    /// Resolves a user-supplied token: exactly `"4"` selects `V4`, exactly
    /// `"6"` selects `V6`, and any other token fails with
    /// `UnsupportedIpVersion`, carrying the token for display.
    pub fn parse(token: &str) -> (r: Result<IpVersion, Error>)
        ensures
            token@ == "4"@ ==> r == Ok::<IpVersion, Error>(IpVersion::V4),
            token@ == "6"@ ==> r == Ok::<IpVersion, Error>(IpVersion::V6),
            token@ != "4"@ && token@ != "6"@ ==> (r matches Err(e)
                && e matches Error::UnsupportedIpVersion(t) && t@ == token@),
    {
        proof {
            reveal_strlit("4");
            reveal_strlit("6");
            assert("4"@[0] == '4');
            assert("6"@[0] == '6');
            assert("4"@ != "6"@);
        }
        if str_eq(token, "4") {
            Ok(IpVersion::V4)
        } else if str_eq(token, "6") {
            Ok(IpVersion::V6)
        } else {
            Err(Error::UnsupportedIpVersion(token.to_owned()))
        }
    }
}

/// The fixed HTTPS endpoint serving each IP version's lookup.
pub open spec fn spec_endpoint(ip_version: IpVersion) -> Seq<char> {
    match ip_version {
        IpVersion::V4 => "https://api.ipify.org"@,
        IpVersion::V6 => "https://api6.ipify.org"@,
    }
}

/// The endpoint URL for an IP version: the mapping is total over the closed
/// enum and pins each variant to its fixed URL.
pub fn endpoint(ip_version: IpVersion) -> (r: &'static str)
    ensures
        r@ == spec_endpoint(ip_version),
{
    match ip_version {
        IpVersion::V4 => "https://api.ipify.org",
        IpVersion::V6 => "https://api6.ipify.org",
    }
}

#[verifier::external_type_specification]
#[verifier::external_body]
pub struct ExUri(hyper::Uri);

/// What hyper's URI parser makes of an endpoint URL: a function of the
/// string alone.
pub uninterp spec fn uri_of(url: Seq<char>) -> hyper::Uri;

/// Relies on hyper's `Uri: FromStr` (the `http` crate's URI parser), which
/// parses either well-formed endpoint literal without failing, into a value
/// determined by the string alone.
#[verifier::external_body]
fn parse_endpoint_uri(url: &str) -> (r: hyper::Uri)
    requires
        url@ == "https://api.ipify.org"@ || url@ == "https://api6.ipify.org"@,
    ensures
        r == uri_of(url@),
{
    url.parse().unwrap()
}

/// The endpoint URL for an IP version, in the form the HTTP transport takes:
/// always the parse of the selected version's own endpoint.
pub fn uri(ip_version: IpVersion) -> (r: hyper::Uri)
    ensures
        r == uri_of(spec_endpoint(ip_version)),
{
    parse_endpoint_uri(endpoint(ip_version))
}

/// What `String::from_utf8_lossy` decodes a byte sequence to: a function of
/// the bytes alone.
pub uninterp spec fn lossy_utf8(bytes: Seq<u8>) -> Seq<char>;

/// Relies on `String::from_utf8_lossy`: the decoding depends on the bytes
/// alone, substitutes U+FFFD for invalid sequences, and never fails.
#[verifier::external_body]
fn decode_lossy(bytes: &[u8]) -> (r: String)
    ensures
        r@ == lossy_utf8(bytes@),
{
    String::from_utf8_lossy(bytes).to_string()
}

/// The fetch operation, seen from the transport's outcome: a response body is
/// decoded lossily and returned verbatim, whatever the HTTP status was; a
/// transport failure's description is surfaced unchanged.
pub open spec fn spec_fetch(outcome: Result<Seq<u8>, Seq<char>>) -> Result<Seq<char>, Seq<char>> {
    match outcome {
        Ok(body) => Ok(lossy_utf8(body)),
        Err(description) => Err(description),
    }
}

/// Completes a fetch from what the transport handed back: the full response
/// body, or its failure's description. Decoding is lossy, so a fetch succeeds
/// exactly when the transport did, on any body whatever.
pub fn complete_fetch(outcome: Result<Vec<u8>, String>) -> (r: Result<String, Error>)
    ensures
        r is Ok <==> outcome is Ok,
        outcome matches Ok(body) ==> (r matches Ok(text) && text@ == lossy_utf8(body@)),
        outcome matches Err(description) ==> (r matches Err(e) && e matches Error::Transport(d)
            && d@ == description@),
        (match r {
            Ok(text) => Ok(text@),
            Err(e) => Err(spec_message(e)),
        }) == spec_fetch(
            match outcome {
                Ok(body) => Ok(body@),
                Err(description) => Err(description@),
            },
        ),
{
    match outcome {
        Ok(body) => Ok(decode_lossy(body.as_slice())),
        Err(description) => Err(Error::from_transport(description)),
    }
}

/// Law: a fetch is idempotent against an unchanged upstream. The endpoint is
/// a function of the IP version alone and the result is a function of the
/// transport's outcome alone, so two invocations with the same version that
/// observe the same outcome produce the same result.
pub proof fn lemma_fetch_idempotent(
    v1: IpVersion,
    v2: IpVersion,
    o1: Result<Seq<u8>, Seq<char>>,
    o2: Result<Seq<u8>, Seq<char>>,
)
    requires
        v1 == v2,
        o1 == o2,
    ensures
        spec_endpoint(v1) == spec_endpoint(v2),
        spec_fetch(o1) == spec_fetch(o2),
{
}

} // verus!
