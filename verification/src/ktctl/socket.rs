//! Reading the init's replies on its sockets

use vstd::prelude::*;
use vstd::string::*;
use crate::socket::{PeerError, ok_reply, err_reply};
use crate::text::{decimal, u64_to_decimal};
use super::console::{Error, ErrorTrace, ErrorTraceView, traced};

verus! {

/// A reply read from a socket: `Ok(Ok(payload))`, `Ok(Err(error))` for an error
/// the init reported, or `Err` when the reply is not framed as kickit frames them
pub type SocketReply = core::result::Result<core::result::Result<Vec<u8>, PeerError>, ErrorTrace>;

pub type SocketReplyView = core::result::Result<
    core::result::Result<Seq<u8>, PeerError>,
    ErrorTraceView,
>;

pub open spec fn reply_view(r: SocketReply) -> SocketReplyView {
    match r {
        Ok(Ok(v)) => Ok(Ok(v@)),
        Ok(Err(e)) => Ok(Err(e)),
        Err(t) => Err(t@),
    }
}

pub open spec fn spec_response(b: Seq<u8>) -> SocketReplyView {
    if b.len() < 2 {
        Err(
            traced(
                Error::SocketResponse,
                "Expected at least 2 bytes, got "@ + decimal(b.len() as int),
            ),
        )
    } else if b[0] == PeerError::IS_OK {
        Ok(Ok(b.skip(1)))
    } else if b[0] == PeerError::IS_ERROR {
        match PeerError::spec_errorize(b[1]) {
            Some(e) => Ok(Err(e)),
            None => Err(traced(Error::SocketResponse, PeerError::errorize_message(b[1]))),
        }
    } else {
        Err(traced(Error::SocketResponse, "Expected ok/err, got "@ + decimal(b[0] as int)))
    }
}

/// Reads a reply: at least two bytes, the first of which marks success (the
/// rest is the payload) or failure (the second byte is the error)
///
/// # Errors
///
/// * The reply is shorter than two bytes,
/// * The first byte is neither marker,
/// * The error byte stands for no error
pub fn response_result(bytes: &[u8]) -> (r: SocketReply)
    ensures
        reply_view(r) == spec_response(bytes@),
{
    let n = bytes.len();
    if n < 2 {
        let mut m = String::from_str("Expected at least 2 bytes, got ");
        let d = u64_to_decimal(n as u64);
        m.append(d.as_str());
        return Err(Error::SocketResponse.trace(m.as_str()));
    }
    if bytes[0] == PeerError::IS_OK {
        let mut out: Vec<u8> = Vec::new();
        let mut i: usize = 1;
        while i < n
            invariant
                n == bytes@.len(),
                1 <= i <= n,
                out@ == bytes@.subrange(1, i as int),
            decreases n - i,
        {
            out.push(bytes[i]);
            proof {
                assert(bytes@.subrange(1, i + 1) =~= bytes@.subrange(1, i as int).push(bytes@[i as int]));
            }
            i = i + 1;
        }
        proof {
            assert(bytes@.subrange(1, n as int) =~= bytes@.skip(1));
        }
        Ok(Ok(out))
    } else if bytes[0] == PeerError::IS_ERROR {
        match PeerError::errorize(bytes[1]) {
            Ok(e) => Ok(Err(e)),
            Err(_) => {
                let m = PeerError::errorize_failure(bytes[1]);
                Err(Error::SocketResponse.trace(m.as_str()))
            },
        }
    } else {
        let mut m = String::from_str("Expected ok/err, got ");
        let d = u64_to_decimal(bytes[0] as u64);
        m.append(d.as_str());
        Err(Error::SocketResponse.trace(m.as_str()))
    }
}

/// A successful reply with a payload is read back as that payload.
pub proof fn law_ok_reply_read_back(payload: Seq<u8>)
    requires
        payload.len() >= 1,
    ensures
        spec_response(ok_reply(payload)) == Ok::<
            core::result::Result<Seq<u8>, PeerError>,
            ErrorTraceView,
        >(Ok(payload)),
{
    assert(ok_reply(payload).skip(1) =~= payload);
}

/// A failed reply is read back as the error that was sent.
pub proof fn law_err_reply_read_back(e: PeerError)
    ensures
        spec_response(err_reply(e)) == Ok::<
            core::result::Result<Seq<u8>, PeerError>,
            ErrorTraceView,
        >(Err(e)),
{
}

/// A payload-less success cannot be told from a truncated reply: it is refused.
pub proof fn law_empty_ok_reply_refused()
    ensures
        spec_response(ok_reply(Seq::empty())) is Err,
{
}

} // verus!
