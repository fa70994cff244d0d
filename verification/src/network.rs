//! The verification protocol: how a request is addressed and signed, and
//! what each answer of the server, or the lack of one, means. The host sends
//! the request and reads the answer.

use crate::signature::{create_signature, signature_of, SIGNATURE_LEN};
use crate::text::{
    ends_with, i64_to_string, lemma_trim_end, lemma_trim_end_is, signed_decimal, trim_end,
    trim_end_matches,
};
use vstd::prelude::*;
use vstd::string::StringExecFns;

verus! {

/// Seconds after which the host gives a request up.
pub const TIMEOUT_SECS: u64 = 10;

/// The status with which the server answers a request that it has judged.
pub const STATUS_OK: u16 = 200;

/// The header that carries the license identifier.
pub const HEADER_LICENSE_ID: &'static str = "X-License-ID";

/// The header that carries the time of the request.
pub const HEADER_TIMESTAMP: &'static str = "X-Timestamp";

/// The header that carries the signature.
pub const HEADER_SIGNATURE: &'static str = "X-Signature";

/// The header that tells a check at startup from a later one.
pub const HEADER_FIRST_CHECK: &'static str = "X-First-Check";

/// What a request carries in its body.
#[derive(Debug, Clone)]
pub struct VerifyRequest {
    pub license_id: String,
    pub machine_fingerprint: String,
    /// Second, since the epoch, at which the request was made.
    pub timestamp: i64,
}

/// The server's answer.
#[derive(Debug, Clone)]
pub struct VerifyResponse {
    /// Whether this machine may run under this license.
    pub authorized: bool,
    pub message: String,
    pub expires_in: Option<i64>,
    /// Milliseconds between two checks from now on, where the server sets
    /// them.
    pub check_interval_ms: Option<u64>,
    /// Name of the kill method from now on, where the server sets it.
    pub kill_method: Option<String>,
}

/// A request ready to be sent: its address, its headers and its body.
#[derive(Debug, Clone)]
pub struct SignedRequest {
    /// Where the request is posted.
    pub url: String,
    /// Value of the header `X-License-ID`.
    pub license_id: String,
    /// Value of the header `X-Timestamp`.
    pub timestamp: String,
    /// Value of the header `X-Signature`.
    pub signature: String,
    /// Value of the header `X-First-Check`.
    pub first_check: String,
    /// What the body holds.
    pub payload: VerifyRequest,
}

/// The path of the verification endpoint.
pub open spec fn verify_path() -> Seq<char> {
    "/api/v1/verify"@
}

/// The address of the verification endpoint under the server address
/// `base`: the base without the slashes that close it, and the endpoint's
/// path after it unless the base already ends with that path.
pub open spec fn endpoint(base: Seq<char>) -> Seq<char> {
    let clean = trim_end(base, '/');
    if verify_path().is_suffix_of(clean) {
        clean
    } else {
        clean + verify_path()
    }
}

/// The message that is signed: the license identifier, and the timestamp in
/// base ten right after it.
pub open spec fn signed_message(license_id: Seq<char>, timestamp: i64) -> Seq<char> {
    license_id + signed_decimal(timestamp as int)
}

/// How `first_check` is written in its header.
pub open spec fn flag(first_check: bool) -> Seq<char> {
    if first_check {
        "true"@
    } else {
        "false"@
    }
}

/// An address that is an endpoint's already is its own endpoint: the path
/// is added once.
pub proof fn lemma_endpoint_idempotent(base: Seq<char>)
    ensures
        endpoint(endpoint(base)) == endpoint(base),
        verify_path().is_suffix_of(endpoint(base)),
{
    reveal_strlit("/api/v1/verify");
    let path = verify_path();
    let clean = trim_end(base, '/');
    let address = endpoint(base);
    lemma_trim_end(base, '/');
    if !path.is_suffix_of(clean) {
        assert(address.subrange(address.len() - path.len(), address.len() as int) =~= path);
    }
    assert(path.is_suffix_of(address));
    assert(address.last() == path[path.len() - 1]) by {
        assert(address.subrange(address.len() - path.len(), address.len() as int)[path.len()
            - 1] == address[address.len() - 1]);
    }
    assert(address.last() != '/');
    lemma_trim_end_is(address, '/', address.len() as int);
    assert(address.subrange(0, address.len() as int) =~= address);
}

/// The address of the verification endpoint under `server_url`.
pub fn verify_url(server_url: &str) -> (url: String)
    ensures
        url@ == endpoint(server_url@),
{
    let clean = trim_end_matches(server_url, '/');
    if ends_with(clean, "/api/v1/verify") {
        clean.to_owned()
    } else {
        clean.to_owned().concat("/api/v1/verify")
    }
}

/// Makes the request of one check: addressed to the endpoint under
/// `server_url`, carrying the license identifier, the machine's fingerprint
/// and the time, and signed with `shared_secret` over the license
/// identifier followed by the timestamp.
pub fn build_request(
    license_id: &str,
    server_url: &str,
    shared_secret: &str,
    machine_fingerprint: &str,
    timestamp: i64,
    first_check: bool,
) -> (request: SignedRequest)
    ensures
        request.url@ == endpoint(server_url@),
        request.license_id@ == license_id@,
        request.timestamp@ == signed_decimal(timestamp as int),
        request.signature@ == signature_of(signed_message(license_id@, timestamp), shared_secret@),
        request.signature@.len() == SIGNATURE_LEN,
        request.first_check@ == flag(first_check),
        request.payload.license_id@ == license_id@,
        request.payload.machine_fingerprint@ == machine_fingerprint@,
        request.payload.timestamp == timestamp,
{
    let stamp = i64_to_string(timestamp);
    let message = license_id.to_owned().concat(stamp.as_str());
    let signature = create_signature(message.as_str(), shared_secret);
    let first = if first_check {
        "true"
    } else {
        "false"
    };
    SignedRequest {
        url: verify_url(server_url),
        license_id: license_id.to_owned(),
        timestamp: stamp,
        signature,
        first_check: first.to_owned(),
        payload: VerifyRequest {
            license_id: license_id.to_owned(),
            machine_fingerprint: machine_fingerprint.to_owned(),
            timestamp,
        },
    }
}

/// How the sending of a request went.
#[derive(Debug)]
pub enum Sent {
    /// No answer came: the server could not be found or reached, or took
    /// too long.
    Failed { reason: String },
    /// The server answered with this status.
    Answered { status: u16 },
}

/// What is known of a check once its request was sent.
#[derive(Debug)]
pub enum Exchange {
    /// The check is over, with this result.
    Settled { result: Result<VerifyResponse, String> },
    /// The answer's body is to be read as a [`VerifyResponse`].
    ReadBody,
}

/// The answer that stands for a server that refused to judge.
pub open spec fn is_http_error(response: VerifyResponse) -> bool {
    &&& !response.authorized
    &&& response.message@ == "HTTP error"@
    &&& response.expires_in is None
    &&& response.check_interval_ms is None
    &&& response.kill_method is None
}

/// The answer that stands for a server out of reach within the grace
/// period.
pub open spec fn is_offline_grant(response: VerifyResponse) -> bool {
    &&& response.authorized
    &&& response.message@ == "Offline access granted"@
    &&& response.expires_in is None
    &&& response.check_interval_ms is None
    &&& response.kill_method is None
}

/// Reads how the sending went.
///
/// A server that answered with status 200 has judged: its body is to be
/// read. Any other status is a refusal, not an error. Where no answer
/// came, the check fails with a network error, which is no refusal; unless
/// a grace period is in force, under which the machine is let run.
pub fn on_sent(sent: Sent, grace_period: u32) -> (exchange: Exchange)
    ensures
        match sent {
            Sent::Answered { status } => if status == STATUS_OK {
                exchange is ReadBody
            } else {
                exchange matches Exchange::Settled { result: Ok(response) } && is_http_error(
                    response,
                )
            },
            Sent::Failed { reason } => if grace_period > 0 {
                exchange matches Exchange::Settled { result: Ok(response) } && is_offline_grant(
                    response,
                )
            } else {
                exchange matches Exchange::Settled { result: Err(error) } && error@
                    == "HTTP request failed: "@ + reason@
            },
        },
{
    match sent {
        Sent::Answered { status } => {
            if status == STATUS_OK {
                Exchange::ReadBody
            } else {
                Exchange::Settled {
                    result: Ok(
                        VerifyResponse {
                            authorized: false,
                            message: "HTTP error".to_owned(),
                            expires_in: None,
                            check_interval_ms: None,
                            kill_method: None,
                        },
                    ),
                }
            }
        },
        Sent::Failed { reason } => {
            if grace_period > 0 {
                Exchange::Settled {
                    result: Ok(
                        VerifyResponse {
                            authorized: true,
                            message: "Offline access granted".to_owned(),
                            expires_in: None,
                            check_interval_ms: None,
                            kill_method: None,
                        },
                    ),
                }
            } else {
                Exchange::Settled {
                    result: Err("HTTP request failed: ".to_owned().concat(reason.as_str())),
                }
            }
        },
    }
}

/// Reads what the body of an answer with status 200 was read as: the
/// server's answer as it is, or a network error where the body is no
/// [`VerifyResponse`].
pub fn on_body(body: Result<VerifyResponse, String>) -> (result: Result<VerifyResponse, String>)
    ensures
        match body {
            Ok(response) => result == Ok::<VerifyResponse, String>(response),
            Err(reason) => result matches Err(error) && error@ == "Failed to parse response: "@
                + reason@,
        },
{
    match body {
        Ok(response) => Ok(response),
        Err(reason) => Err("Failed to parse response: ".to_owned().concat(reason.as_str())),
    }
}

} // verus!
