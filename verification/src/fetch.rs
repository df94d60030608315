//! Reading the price feed's reply: the deadline of a request, and the way
//! from what the transport reports to the text that holds the price.

use vstd::prelude::*;
use vstd::utf8::decode_utf8;
use vstd::utf8::valid_utf8;
use crate::fixed::FixedPoint;

verus! {

/// How long a request to the price feed may take, in milliseconds.
pub const FETCH_DEADLINE_MS: u64 = 2_000;

/// The only HTTP status that is accepted.
pub const STATUS_OK: u16 = 200;

/// Why a fetch brought no price.
#[derive(Clone, Copy, Debug, PartialEq, Eq, Structural)]
pub enum FetchError {
    /// The deadline passed before the response came.
    Timeout,
    /// The transport failed.
    IoError,
    /// The status was not 200.
    BadStatus,
    /// The body was not UTF-8.
    Encoding,
    /// The body did not hold a price in the expected place.
    Malformed,
}

/// What the transport reports of one request.
#[derive(Debug, PartialEq, Eq)]
pub enum Reply {
    /// The request could not be sent.
    SendFailed,
    /// The deadline passed while waiting.
    DeadlineReached,
    /// The connection failed while waiting.
    TransportFailed,
    /// A response came in time.
    Response { status: u16, body: Vec<u8> },
}

/// The deadline of a request that starts at `now_ms`.
pub open spec fn deadline(now_ms: u64) -> u64 {
    if now_ms + FETCH_DEADLINE_MS <= u64::MAX {
        (now_ms + FETCH_DEADLINE_MS) as u64
    } else {
        u64::MAX
    }
}

/// The text of a reply, or the error that the reply amounts to. The checks
/// come in this order: transport, status, encoding.
pub open spec fn reply_text(reply: Reply) -> Result<Seq<char>, FetchError> {
    match reply {
        Reply::SendFailed => Err(FetchError::IoError),
        Reply::DeadlineReached => Err(FetchError::Timeout),
        Reply::TransportFailed => Err(FetchError::IoError),
        Reply::Response { status, body } => {
            if status != STATUS_OK {
                Err(FetchError::BadStatus)
            } else if !valid_utf8(body@) {
                Err(FetchError::Encoding)
            } else {
                Ok(decode_utf8(body@))
            }
        },
    }
}

/// The price that a fetch ends with, given what the parser found in the text.
pub open spec fn parsed_price(found: Option<FixedPoint>) -> Result<FixedPoint, FetchError> {
    match found {
        Some(price) => Ok(price),
        None => Err(FetchError::Malformed),
    }
}

/// Calls `core::str::from_utf8` and keeps the text where there is one. The
/// contract claims what std documents: the call succeeds exactly on valid
/// UTF-8, and the text it gives is those bytes decoded.
#[verifier::external_body]
fn utf8_text(bytes: &[u8]) -> (r: Option<&str>)
    ensures
        r is Some <==> valid_utf8(bytes@),
        r is Some ==> r->0@ == decode_utf8(bytes@),
{
    core::str::from_utf8(bytes).ok()
}

/// The moment at which a request that starts at `now_ms` is given up: 2000
/// ms later, or the end of time where that cannot be represented.
pub fn deadline_after(now_ms: u64) -> (r: u64)
    ensures
        r == deadline(now_ms),
        r >= now_ms,
{
    if now_ms <= u64::MAX - FETCH_DEADLINE_MS {
        now_ms + FETCH_DEADLINE_MS
    } else {
        u64::MAX
    }
}

/// Whether a response with this status is read at all.
pub fn check_status(status: u16) -> (r: Result<(), FetchError>)
    ensures
        r == if status == STATUS_OK {
            Ok::<(), FetchError>(())
        } else {
            Err::<(), FetchError>(FetchError::BadStatus)
        },
{
    if status == STATUS_OK {
        Ok(())
    } else {
        Err(FetchError::BadStatus)
    }
}

/// The text of a reply, ready for the parser, or the error that ends the fetch.
pub fn response_text(reply: &Reply) -> (r: Result<&str, FetchError>)
    ensures
        match r {
            Ok(text) => reply_text(*reply) == Ok::<Seq<char>, FetchError>(text@),
            Err(e) => reply_text(*reply) == Err::<Seq<char>, FetchError>(e),
        },
{
    match reply {
        Reply::SendFailed => Err(FetchError::IoError),
        Reply::DeadlineReached => Err(FetchError::Timeout),
        Reply::TransportFailed => Err(FetchError::IoError),
        Reply::Response { status, body } => {
            match check_status(*status) {
                Err(e) => Err(e),
                Ok(()) => match utf8_text(body.as_slice()) {
                    Some(text) => Ok(text),
                    None => Err(FetchError::Encoding),
                },
            }
        },
    }
}

/// Ends a fetch: the price that the parser found in the text, or `Malformed`
/// where it found none.
pub fn price_from_parse(found: Option<FixedPoint>) -> (r: Result<FixedPoint, FetchError>)
    ensures
        r == parsed_price(found),
{
    match found {
        Some(price) => Ok(price),
        None => Err(FetchError::Malformed),
    }
}

} // verus!
