//! The authenticated ingestion pipeline: gate, decode, dispatch.
//!
//! A raw request — optional signature header, optional kind header, raw
//! body bytes — is verified against the configured secret (when one is
//! configured), decoded into the envelope shape, and dispatched by kind.
//! Authentication and decode failures are terminal: nothing after the
//! failing stage runs, so a request whose signature header is missing is
//! rejected before the body is ever decoded.

use vstd::prelude::*;
use vstd::utf8::{valid_utf8, decode_utf8};
use crate::signature::{spec_verify, verify};
use crate::json::{spec_decode, decode};
use crate::dispatch::{spec_kind_of, spec_dispatch, dispatch, parse_event_kind, DispatchResult,
    DispatchResultView};

verus! {

/// Why a request was rejected before dispatch.
#[derive(Clone, Copy, PartialEq, Eq, Debug, Structural)]
pub enum WebhookError {
    /// The signature header was absent while a secret is configured.
    AuthenticationMissing,
    /// A signature header was present but failed verification.
    AuthenticationInvalid,
    /// The body did not decode into the envelope shape.
    MalformedPayload,
}

/// Relies on std's `str::from_utf8`: `Ok` exactly on valid UTF-8, and then
/// the str viewing as the decoded scalar sequence.
#[verifier::external_body]
fn bytes_as_str(b: &[u8]) -> (r: Option<&str>)
    ensures
        r matches Some(s) ==> valid_utf8(b@) && s@ == decode_utf8(b@),
        r is None <==> !valid_utf8(b@),
{
    core::str::from_utf8(b).ok()
}

/// The view of the optional secret.
pub open spec fn opt_bytes_view(o: Option<&[u8]>) -> Option<Seq<u8>> {
    match o {
        Some(b) => Some(b@),
        None => None,
    }
}

/// The view of an optional header value.
pub open spec fn opt_str_view(o: Option<&str>) -> Option<Seq<char>> {
    match o {
        Some(s) => Some(s@),
        None => None,
    }
}

/// The kind a request is dispatched under: the kind header's value, or
/// `unknown` when the header is absent.
pub open spec fn spec_kind_value(kind: Option<Seq<char>>) -> Seq<char> {
    match kind {
        Some(k) => k,
        None => "unknown"@,
    }
}

/// What the pipeline returns for a request, stage by stage: a missing
/// signature header while a secret is configured is unauthorized; a
/// present header that fails verification is unauthorized; a body that is
/// not valid UTF-8, or does not decode, is malformed; everything else is
/// dispatched.
pub open spec fn spec_process(
    secret: Option<Seq<u8>>,
    signature: Option<Seq<char>>,
    kind: Option<Seq<char>>,
    body: Seq<u8>,
) -> Result<DispatchResultView, WebhookError> {
    if secret is Some && signature is None {
        Err(WebhookError::AuthenticationMissing)
    } else if secret matches Some(sec) && signature matches Some(h) && !spec_verify(
        sec,
        body,
        h,
    ) {
        Err(WebhookError::AuthenticationInvalid)
    } else if !valid_utf8(body) {
        Err(WebhookError::MalformedPayload)
    } else {
        match spec_decode(decode_utf8(body)) {
            Err(_) => Err(WebhookError::MalformedPayload),
            Ok(env) => Ok(spec_dispatch(spec_kind_of(spec_kind_value(kind)), env)),
        }
    }
}

/// Runs one request through the pipeline. With no secret configured the
/// signature stage is bypassed entirely. The last `ensures` clause also
/// says, by itself: when a secret is configured and no signature header
/// arrives, the request is rejected as unauthorized whatever its body and
/// kind hold, and the body is never decoded.
pub fn process_request(
    secret: Option<&[u8]>,
    signature: Option<&str>,
    kind: Option<&str>,
    body: &[u8],
) -> (r: Result<DispatchResult, WebhookError>)
    ensures
        match r {
            Ok(d) => spec_process(
                opt_bytes_view(secret),
                opt_str_view(signature),
                opt_str_view(kind),
                body@,
            ) == Ok::<DispatchResultView, WebhookError>(d@),
            Err(e) => spec_process(
                opt_bytes_view(secret),
                opt_str_view(signature),
                opt_str_view(kind),
                body@,
            ) == Err::<DispatchResultView, WebhookError>(e),
        },
        secret is Some && signature is None ==> r == Err::<DispatchResult, WebhookError>(
            WebhookError::AuthenticationMissing,
        ),
{
    match secret {
        Some(sec) => {
            match signature {
                None => {
                    return Err(WebhookError::AuthenticationMissing);
                },
                Some(h) => {
                    if !verify(sec, body, h) {
                        return Err(WebhookError::AuthenticationInvalid);
                    }
                },
            }
        },
        None => {},
    }
    let text = match bytes_as_str(body) {
        Some(t) => t,
        None => {
            return Err(WebhookError::MalformedPayload);
        },
    };
    let env = match decode(text) {
        Ok(env) => env,
        Err(_) => {
            return Err(WebhookError::MalformedPayload);
        },
    };
    let k = match kind {
        Some(ks) => parse_event_kind(ks),
        None => parse_event_kind("unknown"),
    };
    Ok(dispatch(&k, &env))
}

} // verus!
