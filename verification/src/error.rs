//! Errors, and the exchange between the library and whoever performs its
//! requests.

use vstd::prelude::*;

verus! {

/// The decoder's error type, `rustc_serialize::json::DecoderError`, carried
/// through the library as an opaque value.
#[verifier::external_type_specification]
#[verifier::external_body]
pub struct ExDecoderError(rustc_serialize::json::DecoderError);

/// The transport's error type, `hyper::Error`, carried through the library
/// as an opaque value.
#[verifier::external_type_specification]
#[verifier::external_body]
pub struct ExTransportError(hyper::Error);

/// Why an operation of the library failed.
#[derive(Debug)]
pub enum ChanError {
    /// The payload did not have the shape that was asked for.
    JSON(rustc_serialize::json::DecoderError),
    /// The request did not complete.
    HTTP(hyper::Error),
    /// The directory holds no board with this shortcode.
    NonexistantBoard(String),
}

/// What came back from a request that the library asked for.
#[derive(Debug)]
pub enum Response<T> {
    /// The transport failed; nothing was received.
    Failed(hyper::Error),
    /// A body was received, and the decoder refused it.
    Rejected(rustc_serialize::json::DecoderError),
    /// The body, decoded into its wire record.
    Decoded(T),
}

/// What an operation answers: its result, or the request that has to be
/// performed before it can give one.
#[derive(Debug)]
pub enum Step<T> {
    /// Perform a GET on this URL, and call the operation again with the
    /// response.
    Fetch(String),
    /// The operation is complete.
    Done(Result<T, ChanError>),
}

/// The decoder error that `rustc_serialize::json::DecoderError::ApplicationError`
/// makes of the message `msg`. It depends on the message alone.
pub uninterp spec fn application_error_of(msg: Seq<char>) -> rustc_serialize::json::DecoderError;

/// Makes the decoder error that reports `msg`.
///
/// Calls the constructor `rustc_serialize::json::DecoderError::ApplicationError`,
/// the variant that the decoder's own `error` method makes for an error that
/// the user of the decoder raises, on a copy of `msg`. The value is opaque to
/// the verifier: the contract claims that it is the one that the constructor
/// makes of these characters, and nothing of what is inside it.
#[verifier::external_body]
pub(crate) fn application_error(msg: &str) -> (e: rustc_serialize::json::DecoderError)
    ensures
        e == application_error_of(msg@),
{
    rustc_serialize::json::DecoderError::ApplicationError(msg.to_owned())
}

/// The error that reports a payload which was decoded and which the library
/// cannot take, with `msg` as the reason: the decoder's application error for
/// `msg`, as if the decoder had refused the payload itself.
pub fn malformed(msg: &str) -> (e: ChanError)
    ensures
        e == ChanError::JSON(application_error_of(msg@)),
{
    ChanError::JSON(application_error(msg))
}

} // verus!
