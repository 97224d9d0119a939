//! Authentication credentials, passed through to the service unexamined.

use vstd::prelude::*;

verus! {

/// The credential a request is authenticated with. It is selected by the
/// caller and carried to the service unmodified; this layer never reads it.
#[derive(Clone, Debug, PartialEq, Eq)]
pub enum Authentication {
    /// No authentication: used for direct requests to the core provider.
    NoAuth,
    /// Direct authentication by an application name.
    Direct(String),
    /// Authentication through the peer credentials of the transport.
    UnixPeerCredentials,
}

} // verus!
