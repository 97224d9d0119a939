//! The tool's error taxonomy.

use vstd::prelude::*;
use crate::operation::NativeResult;
use crate::render::dec_rep;
use crate::render::dec_string;

verus! {

/// Every way a command invocation can fail.
///
/// A parameter-resolution error is reported before any round trip is
/// attempted; the dispatch errors surface a failed round trip verbatim; an
/// unexpected native result signals that the service answered a request with
/// a result of the wrong variant, and carries the offending value.
#[derive(Clone, Debug, PartialEq, Eq)]
pub enum ParsecToolError {
    /// A user-supplied provider code does not name any known provider.
    UnknownProviderCode(u8),
    /// The round trip failed in the transport layer.
    TransportError,
    /// The service rejected the credential the request was made with.
    AuthenticationError,
    /// The service's response could not be read back into a result value.
    MalformedResponse,
    /// The service rejected the operation, with its numeric status code.
    ServiceError(u16),
    /// The service returned a result whose variant does not match the
    /// operation that was sent; the result received is kept for diagnosis.
    UnexpectedNativeResult(NativeResult),
}

/// The one-line message each error is reported with.
pub open spec fn error_message(e: ParsecToolError) -> Seq<char> {
    match e {
        ParsecToolError::UnknownProviderCode(code) => "unknown provider code: "@ + dec_rep(
            code as nat,
        ),
        ParsecToolError::TransportError => "failed to communicate with the service"@,
        ParsecToolError::AuthenticationError => "the service rejected the authentication"@,
        ParsecToolError::MalformedResponse => "the service returned a malformed response"@,
        ParsecToolError::ServiceError(status) => "the service rejected the operation with status "@
            + dec_rep(status as nat),
        ParsecToolError::UnexpectedNativeResult(_) => "the service returned an unexpected kind of result"@,
    }
}

impl ParsecToolError {
    /// Renders the error's one-line message.
    pub fn describe(&self) -> (s: String)
        ensures
            s@ == error_message(*self),
    {
        match self {
            ParsecToolError::UnknownProviderCode(code) => {
                let num = dec_string(*code as u32);
                String::from_str("unknown provider code: ").concat(num.as_str())
            },
            ParsecToolError::TransportError => String::from_str(
                "failed to communicate with the service",
            ),
            ParsecToolError::AuthenticationError => String::from_str(
                "the service rejected the authentication",
            ),
            ParsecToolError::MalformedResponse => String::from_str(
                "the service returned a malformed response",
            ),
            ParsecToolError::ServiceError(status) => {
                let num = dec_string(*status as u32);
                String::from_str("the service rejected the operation with status ").concat(
                    num.as_str(),
                )
            },
            ParsecToolError::UnexpectedNativeResult(_) => String::from_str(
                "the service returned an unexpected kind of result",
            ),
        }
    }
}

} // verus!
