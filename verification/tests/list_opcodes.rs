use parsec_tool::auth::Authentication;
use parsec_tool::common::ProviderOpts;
use parsec_tool::error::ParsecToolError;
use parsec_tool::list_opcodes::ListOpcodes;
use parsec_tool::operation::ListOpcodesOperation;
use parsec_tool::operation::ListOpcodesResult;
use parsec_tool::operation::NativeOperation;
use parsec_tool::operation::NativeResult;
use parsec_tool::operation::Opcode;
use parsec_tool::operation::PingResult;
use parsec_tool::provider::ProviderId;
use parsec_tool::subcommand::DispatchPlan;
use parsec_tool::subcommand::ParsecToolSubcommand;

/// A dispatch client double: counts its invocations and hands back a
/// prepared result without any round trip.
struct FakeClient {
    calls: usize,
    reply: Option<NativeResult>,
}

impl FakeClient {
    fn new(reply: Option<NativeResult>) -> FakeClient {
        FakeClient { calls: 0, reply }
    }

    fn process(&mut self, _plan: &DispatchPlan) -> Result<NativeResult, ParsecToolError> {
        self.calls += 1;
        match self.reply.take() {
            Some(r) => Ok(r),
            None => Err(ParsecToolError::TransportError),
        }
    }
}

/// One full invocation, as the command-line front end performs it: plan the
/// round trip, make it, and handle what came back.
fn run(cmd: &ListOpcodes, client: &mut FakeClient) -> Result<Vec<String>, ParsecToolError> {
    let plan = cmd.plan()?;
    let result = client.process(&plan)?;
    cmd.handle_result(result)
}

fn cmd_for(code: u8) -> ListOpcodes {
    ListOpcodes {
        provider_opts: ProviderOpts { provider: code },
    }
}

#[test]
fn construction_yields_expected_variant() {
    let cmd = cmd_for(2);
    let op = cmd.to_operation().unwrap();
    assert_eq!(op.opcode(), Opcode::ListOpcodes);
    assert_eq!(
        op,
        NativeOperation::ListOpcodes(ListOpcodesOperation {
            provider_id: ProviderId::Pkcs11,
        })
    );
}

#[test]
fn construction_succeeds_for_every_known_code() {
    let expected = [
        ProviderId::Core,
        ProviderId::MbedCrypto,
        ProviderId::Pkcs11,
        ProviderId::Tpm,
        ProviderId::TrustedService,
        ProviderId::CryptoAuthLib,
    ];
    for code in 0u8..6u8 {
        let cmd = cmd_for(code);
        let op = cmd.to_operation().unwrap();
        assert_eq!(op.opcode(), Opcode::ListOpcodes);
        assert_eq!(
            op,
            NativeOperation::ListOpcodes(ListOpcodesOperation {
                provider_id: expected[code as usize],
            })
        );
    }
}

#[test]
fn construction_fails_on_unknown_code() {
    let cmd = cmd_for(200);
    assert_eq!(
        cmd.to_operation(),
        Err(ParsecToolError::UnknownProviderCode(200))
    );
}

#[test]
fn plan_is_carried_by_the_core_provider() {
    // The plan queries the TPM provider but is addressed to the core
    // provider, with no authentication.
    let cmd = cmd_for(3);
    let plan = cmd.plan().unwrap();
    assert_eq!(
        plan.operation,
        NativeOperation::ListOpcodes(ListOpcodesOperation {
            provider_id: ProviderId::Tpm,
        })
    );
    assert_eq!(plan.provider, ProviderId::Core);
    assert_eq!(plan.auth, Authentication::NoAuth);
}

#[test]
fn extraction_returns_exact_payload() {
    let payload = ListOpcodesResult {
        opcodes: vec![5, 2, 9, 2],
    };
    let extracted =
        ListOpcodes::extract_opcodes(NativeResult::ListOpcodes(payload.clone())).unwrap();
    assert_eq!(extracted, payload);
    assert_eq!(extracted.opcodes, vec![5, 2, 9, 2]);
}

#[test]
fn extraction_of_mismatched_variant_keeps_the_result() {
    let ping = NativeResult::Ping(PingResult {
        wire_protocol_version_maj: 1,
        wire_protocol_version_min: 0,
    });
    assert_eq!(
        ListOpcodes::extract_opcodes(ping.clone()),
        Err(ParsecToolError::UnexpectedNativeResult(ping))
    );
}

#[test]
fn listing_scenario_renders_in_order() {
    // Target provider resolves to MbedCrypto; the simulated client replies
    // with the ordered opcodes [1, 3, 7].
    let cmd = cmd_for(1);
    let mut client = FakeClient::new(Some(NativeResult::ListOpcodes(ListOpcodesResult {
        opcodes: vec![1, 3, 7],
    })));
    let lines = run(&cmd, &mut client).unwrap();
    assert_eq!(client.calls, 1);
    assert_eq!(lines.len(), 4);
    assert_eq!(lines[0], "Available opcodes for provider MbedCrypto:");
    assert_eq!(lines[1], "* 1");
    assert_eq!(lines[2], "* 3");
    assert_eq!(lines[3], "* 7");
}

#[test]
fn empty_listing_renders_only_the_header() {
    let cmd = cmd_for(0);
    let mut client = FakeClient::new(Some(NativeResult::ListOpcodes(ListOpcodesResult {
        opcodes: vec![],
    })));
    let lines = run(&cmd, &mut client).unwrap();
    assert_eq!(lines, vec!["Available opcodes for provider Core:".to_string()]);
}

#[test]
fn wrong_variant_scenario_renders_nothing() {
    // The simulated client answers an opcode listing with a ping result:
    // the invocation ends in the unexpected-result error and renders
    // zero lines.
    let cmd = cmd_for(1);
    let ping = NativeResult::Ping(PingResult {
        wire_protocol_version_maj: 1,
        wire_protocol_version_min: 0,
    });
    let mut client = FakeClient::new(Some(ping.clone()));
    let outcome = run(&cmd, &mut client);
    assert_eq!(
        outcome,
        Err(ParsecToolError::UnexpectedNativeResult(ping))
    );
}

#[test]
fn resolution_failure_never_reaches_the_client() {
    // An unrecognized provider code fails before any round trip: the
    // double's call counter stays at zero.
    let cmd = cmd_for(99);
    let mut client = FakeClient::new(Some(NativeResult::ListOpcodes(ListOpcodesResult {
        opcodes: vec![1],
    })));
    let outcome = run(&cmd, &mut client);
    assert_eq!(outcome, Err(ParsecToolError::UnknownProviderCode(99)));
    assert_eq!(client.calls, 0);
}

#[test]
fn handle_result_rejects_the_wrong_variant_directly() {
    let cmd = cmd_for(2);
    let ping = NativeResult::Ping(PingResult {
        wire_protocol_version_maj: 2,
        wire_protocol_version_min: 5,
    });
    assert_eq!(
        cmd.handle_result(ping.clone()),
        Err(ParsecToolError::UnexpectedNativeResult(ping))
    );
}

#[test]
fn transport_failure_is_surfaced_verbatim() {
    let cmd = cmd_for(0);
    let mut client = FakeClient::new(None);
    assert_eq!(run(&cmd, &mut client), Err(ParsecToolError::TransportError));
    assert_eq!(client.calls, 1);
}
