//! Parameters shared by subcommands that address a provider.

use vstd::prelude::*;
use crate::error::ParsecToolError;
use crate::provider::ProviderId;
use crate::provider::resolve_spec;

verus! {

/// The provider-selection parameter: the numeric code of the provider the
/// user wants to address, as supplied on the command line.
#[derive(Clone, Copy, Debug, PartialEq, Eq, Structural)]
pub struct ProviderOpts {
    /// The user-supplied provider code.
    pub provider: u8,
}

impl ProviderOpts {
    /// Resolves the user-supplied code to a provider identifier, failing on
    /// a code that names no known provider.
    pub fn provider(&self) -> (r: Result<ProviderId, ParsecToolError>)
        ensures
            r == resolve_spec(self.provider),
    {
        ProviderId::resolve(self.provider)
    }
}

} // verus!
