//! The subcommand that lists the opcodes a given provider supports.

use vstd::prelude::*;
use crate::auth::Authentication;
use crate::common::ProviderOpts;
use crate::error::ParsecToolError;
use crate::operation::ListOpcodesOperation;
use crate::operation::ListOpcodesResult;
use crate::operation::NativeOperation;
use crate::operation::NativeResult;
use crate::operation::Opcode;
use crate::provider::ProviderId;
use crate::provider::provider_name;
use crate::provider::resolve_spec;
use crate::render::dec_rep;
use crate::render::dec_string;
use crate::subcommand::DispatchPlan;
use crate::subcommand::ParsecToolSubcommand;

verus! {

/// Lists the supported opcodes for a given provider.
#[derive(Clone, Copy, Debug, PartialEq, Eq, Structural)]
pub struct ListOpcodes {
    /// Which provider to query.
    pub provider_opts: ProviderOpts,
}

impl ParsecToolSubcommand for ListOpcodes {
    open spec fn expected_opcode(&self) -> Opcode {
        Opcode::ListOpcodes
    }

    open spec fn operation_of(&self) -> Result<NativeOperation, ParsecToolError> {
        match resolve_spec(self.provider_opts.provider) {
            Ok(p) => Ok(
                NativeOperation::ListOpcodes(ListOpcodesOperation { provider_id: p }),
            ),
            Err(e) => Err(e),
        }
    }

    fn to_operation(&self) -> (r: Result<NativeOperation, ParsecToolError>) {
        match self.provider_opts.provider() {
            Ok(p) => Ok(NativeOperation::ListOpcodes(ListOpcodesOperation { provider_id: p })),
            Err(e) => Err(e),
        }
    }
}

/// The header line above a listing: it names the provider that was queried.
pub open spec fn header_line(p: ProviderId) -> Seq<char> {
    "Available opcodes for provider "@ + provider_name(p) + ":"@
}

/// One line of a listing: a visual marker, then the opcode in decimal.
pub open spec fn opcode_line(op: u32) -> Seq<char> {
    "* "@ + dec_rep(op as nat)
}

/// Whether `lines` is exactly the rendering of a listing for provider `p`
/// with opcodes `ops`: the header line naming `p`, then one marker-prefixed
/// line per opcode, in the order of `ops`.
pub open spec fn is_listing_rendering(lines: Seq<String>, p: ProviderId, ops: Seq<u32>) -> bool {
    &&& lines.len() == 1 + ops.len()
    &&& lines[0]@ == header_line(p)
    &&& forall|i: int| 0 <= i < ops.len() ==> (#[trigger] lines[i + 1]@) == opcode_line(ops[i])
}

impl ListOpcodes {
    /// Plans the round trip this subcommand asks for. On success the plan
    /// holds the opcode-listing operation for the resolved provider, is
    /// carried by the core provider whichever provider it asks about, and
    /// uses no authentication. A provider code that resolves to no known
    /// provider short-circuits with that resolution error, and no plan —
    /// hence no round trip — is produced.
    pub fn plan(&self) -> (r: Result<DispatchPlan, ParsecToolError>)
        ensures
            resolve_spec(self.provider_opts.provider) matches Ok(p) ==> r == Ok::<
                DispatchPlan,
                ParsecToolError,
            >(
                DispatchPlan {
                    operation: NativeOperation::ListOpcodes(
                        ListOpcodesOperation { provider_id: p },
                    ),
                    provider: ProviderId::Core,
                    auth: Authentication::NoAuth,
                },
            ),
            resolve_spec(self.provider_opts.provider) matches Err(e) ==> r == Err::<
                DispatchPlan,
                ParsecToolError,
            >(e),
    {
        match self.to_operation() {
            Ok(operation) => Ok(
                DispatchPlan {
                    operation,
                    // Listing opcodes is a core operation, so the request is
                    // carried by the core provider even though it queries a
                    // different one.
                    provider: ProviderId::Core,
                    auth: Authentication::NoAuth,
                },
            ),
            Err(e) => Err(e),
        }
    }

    /// Extracts the one result variant this subcommand expects. A matching
    /// result yields its payload exactly as carried; any other variant is an
    /// unexpected-result error keeping the offending value for diagnosis.
    pub fn extract_opcodes(result: NativeResult) -> (r: Result<
        ListOpcodesResult,
        ParsecToolError,
    >)
        ensures
            result matches NativeResult::ListOpcodes(payload) ==> r == Ok::<
                ListOpcodesResult,
                ParsecToolError,
            >(payload),
            !(result matches NativeResult::ListOpcodes(_)) ==> r == Err::<
                ListOpcodesResult,
                ParsecToolError,
            >(ParsecToolError::UnexpectedNativeResult(result)),
    {
        if let NativeResult::ListOpcodes(payload) = result {
            Ok(payload)
        } else {
            Err(ParsecToolError::UnexpectedNativeResult(result))
        }
    }

    /// Renders a listing payload: the header line naming the queried
    /// provider, then each opcode on its own marker-prefixed line, in the
    /// payload's original order.
    pub fn render_listing(provider: ProviderId, result: &ListOpcodesResult) -> (lines: Vec<String>)
        ensures
            is_listing_rendering(lines@, provider, result.opcodes@),
    {
        let mut lines: Vec<String> = Vec::new();
        let header = String::from_str("Available opcodes for provider ").concat(
            provider.name(),
        ).concat(":");
        proof {
            assert(header@ =~= header_line(provider));
        }
        lines.push(header);
        let mut idx: usize = 0;
        while idx < result.opcodes.len()
            invariant
                idx <= result.opcodes@.len(),
                lines@.len() == 1 + idx,
                lines@[0]@ == header_line(provider),
                forall|i: int|
                    0 <= i < idx ==> (#[trigger] lines@[i + 1]@) == opcode_line(
                        result.opcodes@[i],
                    ),
            decreases result.opcodes@.len() - idx,
        {
            let op = result.opcodes[idx];
            let digits = dec_string(op);
            let line = String::from_str("* ").concat(digits.as_str());
            lines.push(line);
            idx += 1;
        }
        lines
    }

    /// Handles the result of the round trip this subcommand caused: checks
    /// the variant, and on a match renders the listing for the provider the
    /// subcommand queried. A result of any other variant is rejected with
    /// the unexpected-result error and nothing is rendered.
    pub fn handle_result(&self, result: NativeResult) -> (r: Result<Vec<String>, ParsecToolError>)
        ensures
            !(result matches NativeResult::ListOpcodes(_)) ==> r == Err::<
                Vec<String>,
                ParsecToolError,
            >(ParsecToolError::UnexpectedNativeResult(result)),
            result matches NativeResult::ListOpcodes(payload) ==> (resolve_spec(
                self.provider_opts.provider,
            ) matches Ok(p) ==> (r matches Ok(lines) && is_listing_rendering(
                lines@,
                p,
                payload.opcodes@,
            ))),
            result matches NativeResult::ListOpcodes(payload) ==> (resolve_spec(
                self.provider_opts.provider,
            ) matches Err(e) ==> r == Err::<Vec<String>, ParsecToolError>(e)),
    {
        match Self::extract_opcodes(result) {
            Ok(payload) => {
                match self.provider_opts.provider() {
                    Ok(p) => Ok(Self::render_listing(p, &payload)),
                    Err(e) => Err(e),
                }
            },
            Err(e) => Err(e),
        }
    }
}

/// Law: construction round-trips on the variant tag. Converting the
/// subcommand's parameters succeeds exactly when the provider code resolves,
/// and the operation produced then carries the resolved provider under the
/// opcode-listing tag — the kind the subcommand expects.
pub proof fn lemma_construction_matches_kind(cmd: ListOpcodes)
    ensures
        cmd.operation_of() is Ok <==> resolve_spec(cmd.provider_opts.provider) is Ok,
        cmd.operation_of() matches Ok(op) ==> op.spec_opcode() == cmd.expected_opcode(),
        cmd.operation_of() matches Ok(op) ==> op == NativeOperation::ListOpcodes(
            ListOpcodesOperation {
                provider_id: resolve_spec(cmd.provider_opts.provider)->Ok_0,
            },
        ),
{
}

/// Law: a resolution failure short-circuits construction. When the provider
/// code resolves to no known provider, the conversion yields that same
/// resolution error, and no operation value exists to be dispatched.
pub proof fn lemma_resolution_failure_short_circuits(cmd: ListOpcodes)
    requires
        resolve_spec(cmd.provider_opts.provider) is Err,
    ensures
        cmd.operation_of() == Err::<NativeOperation, ParsecToolError>(
            resolve_spec(cmd.provider_opts.provider)->Err_0,
        ),
{
}

} // verus!
