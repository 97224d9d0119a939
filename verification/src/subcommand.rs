//! The interface every subcommand implements: a fallible conversion of its
//! own parameters into an operation value of the one kind it stands for.

use vstd::prelude::*;
use crate::auth::Authentication;
use crate::error::ParsecToolError;
use crate::operation::NativeOperation;
use crate::operation::Opcode;
use crate::provider::ProviderId;

verus! {

/// Everything one round trip needs: the operation to perform, the provider
/// that carries the request, and the credential to authenticate it with.
///
/// The carrying provider may differ from the provider named inside the
/// operation's own parameters: introspection operations are always carried
/// by the core provider, whichever provider they ask about.
#[derive(Clone, Debug, PartialEq, Eq)]
pub struct DispatchPlan {
    /// The operation to send.
    pub operation: NativeOperation,
    /// The provider the request is addressed to.
    pub provider: ProviderId,
    /// The credential the request is authenticated with.
    pub auth: Authentication,
}

/// A subcommand of the tool.
///
/// Each subcommand owns its user-facing parameters, converts them fallibly
/// into an operation value, and later expects back a result of exactly the
/// kind that operation stands for.
pub trait ParsecToolSubcommand {
    /// The one result kind this subcommand expects back.
    spec fn expected_opcode(&self) -> Opcode;

    /// What the conversion of this subcommand's parameters yields: either a
    /// fully populated operation value, or the error that stopped it.
    spec fn operation_of(&self) -> Result<NativeOperation, ParsecToolError>;

    /// Converts the subcommand's parameters into an operation value. On
    /// success the operation's kind tag is the kind the subcommand expects.
    fn to_operation(&self) -> (r: Result<NativeOperation, ParsecToolError>)
        ensures
            r == self.operation_of(),
            r matches Ok(op) ==> op.spec_opcode() == self.expected_opcode(),
    ;
}

} // verus!
