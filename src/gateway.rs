use vstd::prelude::*;
use crate::interaction::{dispatch, dispatch_response, Interaction};
use crate::response::{Response, ResponseView};
use crate::store::State;

verus! {

/// Why an inbound webhook request was turned away.
#[derive(Clone, Copy, Debug, PartialEq, Eq, Structural)]
pub enum Rejection {
    /// The signature or the timestamp header is absent.
    HeaderMissing,
    /// The signature does not verify against the public key.
    VerificationFailed,
    /// The verified body is not a well-formed interaction.
    DecodeFailed,
}

impl Rejection {
    pub open spec fn spec_status(self) -> u16 {
        match self {
            Rejection::HeaderMissing => 400,
            Rejection::VerificationFailed => 401,
            Rejection::DecodeFailed => 422,
        }
    }

    /// The HTTP status this rejection is answered with.
    pub fn status(&self) -> (r: u16)
        ensures
            r == self.spec_status(),
    {
        match self {
            Rejection::HeaderMissing => 400,
            Rejection::VerificationFailed => 401,
            Rejection::DecodeFailed => 422,
        }
    }
}

/// The message a detached signature covers: the timestamp header's bytes
/// followed by the raw body, unchanged.
pub fn signed_message(timestamp: &[u8], body: &[u8]) -> (r: Vec<u8>)
    ensures
        r@ == timestamp@ + body@,
{
    let mut r: Vec<u8> = Vec::new();
    let mut i: usize = 0;
    while i < timestamp.len()
        invariant
            i <= timestamp@.len(),
            r@ == timestamp@.subrange(0, i as int),
        decreases timestamp@.len() - i,
    {
        r.push(timestamp[i]);
        i = i + 1;
        assert(r@ =~= timestamp@.subrange(0, i as int));
    }
    let mut j: usize = 0;
    while j < body.len()
        invariant
            j <= body@.len(),
            r@ == timestamp@ + body@.subrange(0, j as int),
        decreases body@.len() - j,
    {
        r.push(body[j]);
        j = j + 1;
        assert(r@ =~= timestamp@ + body@.subrange(0, j as int));
    }
    assert(timestamp@.subrange(0, timestamp@.len() as int) =~= timestamp@);
    assert(body@.subrange(0, body@.len() as int) =~= body@);
    r
}

/// The gateway's verdict on one request, from the outcome of each stage in
/// order: headers present, signature valid, body decoded. A stage that fails
/// decides the verdict; later stages are not looked at.
pub open spec fn gateway_verdict(
    has_signature: bool,
    has_timestamp: bool,
    signature_valid: bool,
    decoded: Option<Interaction>,
    es: Seq<crate::store::EntryView>,
) -> Result<ResponseView, Rejection> {
    if !has_signature || !has_timestamp {
        Err(Rejection::HeaderMissing)
    } else if !signature_valid {
        Err(Rejection::VerificationFailed)
    } else {
        match decoded {
            None => Err(Rejection::DecodeFailed),
            Some(i) => Ok(dispatch_response(i, es)),
        }
    }
}

/// Handles one webhook request whose stages have been run: `signature_valid`
/// is the verifier's outcome on `signed_message`, `decoded` the decoder's.
pub fn handle_request(
    has_signature: bool,
    has_timestamp: bool,
    signature_valid: bool,
    decoded: &Option<Interaction>,
    state: &State,
) -> (r: Result<Response, Rejection>)
    ensures
        match r {
            Ok(resp) => gateway_verdict(has_signature, has_timestamp, signature_valid, *decoded, state@)
                == Ok::<ResponseView, Rejection>(resp@),
            Err(e) => gateway_verdict(has_signature, has_timestamp, signature_valid, *decoded, state@)
                == Err::<ResponseView, Rejection>(e),
        },
{
    if !has_signature || !has_timestamp {
        Err(Rejection::HeaderMissing)
    } else if !signature_valid {
        Err(Rejection::VerificationFailed)
    } else {
        match decoded {
            None => Err(Rejection::DecodeFailed),
            Some(i) => Ok(dispatch(i, state)),
        }
    }
}

/// The HTTP status of a handled request: 200 for a response, else the
/// rejection's own.
pub fn status_of(r: &Result<Response, Rejection>) -> (s: u16)
    ensures
        s == match r {
            Ok(_) => 200u16,
            Err(e) => e.spec_status(),
        },
{
    match r {
        Ok(_) => 200,
        Err(e) => e.status(),
    }
}

} // verus!
