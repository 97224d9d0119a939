//! Operation and result values: one tagged union over every operation kind
//! the service supports, and one over every result kind it can return.

use vstd::prelude::*;
use crate::provider::ProviderId;

verus! {

/// The kind tag shared by an operation and the result it must come back with.
#[derive(Clone, Copy, Debug, PartialEq, Eq, Structural)]
pub enum Opcode {
    /// Service liveness and protocol-version probe.
    Ping,
    /// Listing of the opcodes a given provider supports.
    ListOpcodes,
}

/// Parameters of a ping operation; it carries none.
#[derive(Clone, Copy, Debug, PartialEq, Eq, Structural)]
pub struct PingOperation {}

/// Parameters of an opcode-listing operation: the provider being asked
/// about, which need not be the provider that carries the request.
#[derive(Clone, Copy, Debug, PartialEq, Eq, Structural)]
pub struct ListOpcodesOperation {
    /// Provider whose supported opcodes are requested.
    pub provider_id: ProviderId,
}

/// A requested unit of work: one variant per operation kind, each carrying
/// exactly the parameters its kind requires.
#[derive(Clone, Copy, Debug, PartialEq, Eq, Structural)]
pub enum NativeOperation {
    /// Ping operation.
    Ping(PingOperation),
    /// ListOpcodes operation.
    ListOpcodes(ListOpcodesOperation),
}

/// Payload of a ping result: the highest wire protocol version supported.
#[derive(Clone, Copy, Debug, PartialEq, Eq, Structural)]
pub struct PingResult {
    /// Major version of the highest supported wire protocol.
    pub wire_protocol_version_maj: u8,
    /// Minor version of the highest supported wire protocol.
    pub wire_protocol_version_min: u8,
}

/// Payload of an opcode-listing result: the opcodes the queried provider
/// supports, in the order the service returned them.
#[derive(Clone, Debug, PartialEq, Eq)]
pub struct ListOpcodesResult {
    /// Numeric opcode identifiers, in the order received.
    pub opcodes: Vec<u32>,
}

/// What a round trip brings back: one variant per result kind, each carrying
/// the payload for one operation kind.
#[derive(Clone, Debug, PartialEq, Eq)]
pub enum NativeResult {
    /// Ping result.
    Ping(PingResult),
    /// ListOpcodes result.
    ListOpcodes(ListOpcodesResult),
}

impl NativeOperation {
    /// The kind tag of this operation.
    pub open spec fn spec_opcode(&self) -> Opcode {
        match self {
            NativeOperation::Ping(_) => Opcode::Ping,
            NativeOperation::ListOpcodes(_) => Opcode::ListOpcodes,
        }
    }

    /// The kind tag of this operation.
    pub fn opcode(&self) -> (op: Opcode)
        ensures
            op == self.spec_opcode(),
    {
        match self {
            NativeOperation::Ping(_) => Opcode::Ping,
            NativeOperation::ListOpcodes(_) => Opcode::ListOpcodes,
        }
    }
}

impl NativeResult {
    /// The kind tag of this result.
    pub open spec fn spec_opcode(&self) -> Opcode {
        match self {
            NativeResult::Ping(_) => Opcode::Ping,
            NativeResult::ListOpcodes(_) => Opcode::ListOpcodes,
        }
    }

    /// The kind tag of this result.
    pub fn opcode(&self) -> (op: Opcode)
        ensures
            op == self.spec_opcode(),
    {
        match self {
            NativeResult::Ping(_) => Opcode::Ping,
            NativeResult::ListOpcodes(_) => Opcode::ListOpcodes,
        }
    }
}

} // verus!
