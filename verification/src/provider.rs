//! Provider identifiers and their resolution from user input.

use vstd::prelude::*;
use crate::error::ParsecToolError;

verus! {

/// Identifies one back-end provider of cryptographic operations.
///
/// The `Core` provider is special: it carries introspection operations,
/// even when the operation asks about a different provider.
#[derive(Clone, Copy, Debug, PartialEq, Eq, Structural)]
pub enum ProviderId {
    /// Provider for core operations such as introspection.
    Core,
    /// Provider backed by the Mbed Crypto software library.
    MbedCrypto,
    /// Provider backed by a PKCS #11 compatible library.
    Pkcs11,
    /// Provider backed by a TSS 2.0 Enhanced System API library.
    Tpm,
    /// Provider backed by a crypto Trusted Service running in TrustZone.
    TrustedService,
    /// Provider backed by the CryptoAuthentication Library.
    CryptoAuthLib,
}

/// The stable numeric code under which each provider is addressed.
pub open spec fn provider_code(p: ProviderId) -> u8 {
    match p {
        ProviderId::Core => 0,
        ProviderId::MbedCrypto => 1,
        ProviderId::Pkcs11 => 2,
        ProviderId::Tpm => 3,
        ProviderId::TrustedService => 4,
        ProviderId::CryptoAuthLib => 5,
    }
}

/// What resolving a user-supplied provider code yields: the provider under
/// that code, or a parameter-resolution error for an unknown code.
pub open spec fn resolve_spec(code: u8) -> Result<ProviderId, ParsecToolError> {
    if code == 0 {
        Ok(ProviderId::Core)
    } else if code == 1 {
        Ok(ProviderId::MbedCrypto)
    } else if code == 2 {
        Ok(ProviderId::Pkcs11)
    } else if code == 3 {
        Ok(ProviderId::Tpm)
    } else if code == 4 {
        Ok(ProviderId::TrustedService)
    } else if code == 5 {
        Ok(ProviderId::CryptoAuthLib)
    } else {
        Err(ParsecToolError::UnknownProviderCode(code))
    }
}

/// The name of each provider, as the tool prints it.
pub open spec fn provider_name(p: ProviderId) -> Seq<char> {
    match p {
        ProviderId::Core => "Core"@,
        ProviderId::MbedCrypto => "MbedCrypto"@,
        ProviderId::Pkcs11 => "Pkcs11"@,
        ProviderId::Tpm => "Tpm"@,
        ProviderId::TrustedService => "TrustedService"@,
        ProviderId::CryptoAuthLib => "CryptoAuthLib"@,
    }
}

impl ProviderId {
    /// Resolves a user-supplied provider code, failing on an unknown one.
    pub fn resolve(code: u8) -> (r: Result<ProviderId, ParsecToolError>)
        ensures
            r == resolve_spec(code),
            r matches Ok(p) ==> provider_code(p) == code,
            code > 5 ==> r == Err::<ProviderId, _>(ParsecToolError::UnknownProviderCode(code)),
    {
        match code {
            0 => Ok(ProviderId::Core),
            1 => Ok(ProviderId::MbedCrypto),
            2 => Ok(ProviderId::Pkcs11),
            3 => Ok(ProviderId::Tpm),
            4 => Ok(ProviderId::TrustedService),
            5 => Ok(ProviderId::CryptoAuthLib),
            _ => Err(ParsecToolError::UnknownProviderCode(code)),
        }
    }

    /// The numeric code under which this provider is addressed.
    pub fn code(&self) -> (c: u8)
        ensures
            c == provider_code(*self),
    {
        match self {
            ProviderId::Core => 0,
            ProviderId::MbedCrypto => 1,
            ProviderId::Pkcs11 => 2,
            ProviderId::Tpm => 3,
            ProviderId::TrustedService => 4,
            ProviderId::CryptoAuthLib => 5,
        }
    }

    /// The provider's printable name.
    pub fn name(&self) -> (s: &'static str)
        ensures
            s@ == provider_name(*self),
    {
        match self {
            ProviderId::Core => "Core",
            ProviderId::MbedCrypto => "MbedCrypto",
            ProviderId::Pkcs11 => "Pkcs11",
            ProviderId::Tpm => "Tpm",
            ProviderId::TrustedService => "TrustedService",
            ProviderId::CryptoAuthLib => "CryptoAuthLib",
        }
    }
}

/// Law: resolution is exact. A known code resolves to the one provider that
/// carries it, and resolving any provider's own code gives that provider back.
pub proof fn lemma_resolution_round_trip(p: ProviderId)
    ensures
        resolve_spec(provider_code(p)) == Ok::<ProviderId, ParsecToolError>(p),
{
}

} // verus!
