use relayer_primitives::configs::{ChainsConfig, ConfigurationError};
use relayer_primitives::primitives::{Address, InvalidAddress, U256, U48};
use relayer_primitives::processor::{
    encode_batch, encode_single, BroadcastOutcome, ChainCallPayload, ForwardCallData,
    ForwardRequestData, Processor, ProcessorError,
};
use relayer_primitives::relay::PendingSubmission;

const FORWARDER: &str = "0x5FbDB2315678afecb367f032d93F642f64180aa3";
const REFUND: &str = "0x70997970C51812dc3A010C7d01b50e0d17dc79C8";
const K1: &str = "0xac0974bec39a17e36ba4a6b4d238ff944bacb478cbed5efcae784d7bf4f2ff80";
const K2: &str = "0x59c6995e998f97a5a0044966f0945389dc9e86dae88c7a8412f4603b6b78690d";

fn request(tag: u8) -> ForwardRequestData {
    ForwardRequestData {
        from: Address { bytes: [tag; 20] },
        to: Address { bytes: [tag.wrapping_add(1); 20] },
        value: U256::from_u64(1_000 + tag as u64),
        gas: U256 { limbs: [21_000, tag as u64, 0, 7] },
        deadline: U48::new(1_700_000_000 + tag as u64).unwrap(),
        data: vec![tag, 0xde, 0xad, 0xbe, 0xef],
        signature: vec![tag; 65],
    }
}

fn call(tag: u8) -> ForwardCallData {
    let r = request(tag);
    ForwardCallData {
        from: r.from,
        to: r.to,
        value: r.value,
        gas: r.gas,
        deadline: r.deadline,
        data: r.data,
        signature: r.signature,
    }
}

fn config(keys: &[&str]) -> ChainsConfig {
    ChainsConfig::new(
        Some("Ethereum Dev Network".to_string()),
        "http://localhost:8545".to_string(),
        31337,
        keys.iter().map(|k| k.to_string()).collect(),
        FORWARDER.to_string(),
    )
}

#[test]
fn test_process_request() {
    let chains_config = config(&[K1]);
    let mut processor = Processor::try_new(chains_config.clone()).unwrap();
    assert_eq!(processor.chains_config(), &chains_config);
    assert_eq!(processor.trusted_forwarder(), Address::parse(FORWARDER).unwrap());
    let submission = processor.process_request(request(1));
    assert_eq!(submission.account, K1);
    assert_eq!(submission.payload, ChainCallPayload::Execute { request: call(1) });
}

#[test]
fn conversion_keeps_every_field() {
    let converted = ForwardCallData::from(request(9));
    assert_eq!(converted.from.bytes, [9; 20]);
    assert_eq!(converted.to.bytes, [10; 20]);
    assert_eq!(converted.value.limbs, [1_009, 0, 0, 0]);
    assert_eq!(converted.gas.limbs, [21_000, 9, 0, 7]);
    assert_eq!(converted.deadline.get(), 1_700_000_009);
    assert_eq!(converted.data, vec![9, 0xde, 0xad, 0xbe, 0xef]);
    assert_eq!(converted.signature, vec![9; 65]);
}

#[test]
fn conversion_from_reference_keeps_every_field() {
    let given = request(4);
    let converted = ForwardCallData::from(&given);
    assert_eq!(converted, call(4));
    assert_eq!(given, request(4));
}

#[test]
fn encode_single_maps_field_for_field() {
    let payload = encode_single(request(7));
    assert_eq!(payload, ChainCallPayload::Execute { request: call(7) });
}

#[test]
fn encode_single_keeps_empty_and_long_byte_strings() {
    let mut r = request(0);
    r.data = Vec::new();
    r.signature = (0..=255u8).cycle().take(1000).collect();
    let expected_signature = r.signature.clone();
    match encode_single(r) {
        ChainCallPayload::Execute { request } => {
            assert!(request.data.is_empty());
            assert_eq!(request.signature, expected_signature);
        }
        other => panic!("unexpected payload {:?}", other),
    }
}

#[test]
fn encode_batch_preserves_order() {
    let requests = vec![request(b'A'), request(b'B'), request(b'C')];
    let payload = encode_batch(&requests, REFUND).unwrap();
    assert_eq!(
        payload,
        ChainCallPayload::ExecuteBatch {
            requests: vec![call(b'A'), call(b'B'), call(b'C')],
            refund_receiver: Address::parse(REFUND).unwrap(),
        }
    );
}

#[test]
fn encode_batch_of_nothing_is_an_empty_batch() {
    let payload = encode_batch(&Vec::new(), REFUND).unwrap();
    assert_eq!(
        payload,
        ChainCallPayload::ExecuteBatch {
            requests: Vec::new(),
            refund_receiver: Address {
                bytes: [
                    0x70, 0x99, 0x79, 0x70, 0xc5, 0x18, 0x12, 0xdc, 0x3a, 0x01, 0x0c, 0x7d, 0x01,
                    0xb5, 0x0e, 0x0d, 0x17, 0xdc, 0x79, 0xc8
                ]
            },
        }
    );
}

#[test]
fn encode_batch_rejects_invalid_refund_address() {
    let requests = vec![request(1), request(2)];
    assert_eq!(encode_batch(&requests, "not-an-address"), Err(InvalidAddress));
}

#[test]
fn processor_new_starts_with_the_configured_order() {
    let chains_config = config(&[K1, K2]);
    let forwarder = Address::parse(FORWARDER).unwrap();
    let mut processor = Processor::new(chains_config.clone(), forwarder);
    assert_eq!(processor.account_count(), 2);
    assert_eq!(processor.trusted_forwarder(), forwarder);
    assert_eq!(processor.chains_config(), &chains_config);
    assert_eq!(processor.process_request(request(1)).account, K1);
}

#[test]
fn try_new_rejects_empty_account_list() {
    assert!(matches!(
        Processor::try_new(config(&[])),
        Err(ConfigurationError::EmptyAccounts)
    ));
}

#[test]
fn try_new_rejects_a_bad_key_and_a_bad_endpoint() {
    assert!(matches!(
        Processor::try_new(config(&[K1, "K2"])),
        Err(ConfigurationError::InvalidAccountKey { index: 1 })
    ));
    let mut chains_config = config(&[K1]);
    chains_config.rpc_url = "localhost".to_string();
    assert!(matches!(Processor::try_new(chains_config), Err(ConfigurationError::InvalidRpcUrl)));
}

#[test]
fn try_new_rejects_unparsable_forwarder() {
    let mut chains_config = config(&[K1]);
    chains_config.trusted_forwarder = "0x1234".to_string();
    assert!(matches!(
        Processor::try_new(chains_config),
        Err(ConfigurationError::InvalidForwarderAddress)
    ));
}

#[test]
fn two_submissions_use_the_two_accounts_in_turn() {
    let mut processor = Processor::try_new(config(&[K1, K2])).unwrap();
    let first = processor.process_request(request(1));
    assert_eq!(first.account, K1);
    let second = processor.process_request(request(2));
    assert_eq!(second.account, K2);
    let third = processor.process_request(request(3));
    assert_eq!(third.account, K1);
    assert_eq!(first.payload, ChainCallPayload::Execute { request: call(1) });
    assert_eq!(second.payload, ChainCallPayload::Execute { request: call(2) });
    assert_eq!(processor.account_count(), 2);
}

#[test]
fn batch_submission_takes_one_account_for_the_whole_batch() {
    let mut processor = Processor::try_new(config(&[K1, K2])).unwrap();
    let submission = processor
        .process_batch_request(vec![request(1), request(2), request(3)], REFUND.to_string())
        .unwrap();
    assert_eq!(submission.account, K1);
    assert_eq!(
        submission.payload,
        ChainCallPayload::ExecuteBatch {
            requests: vec![call(1), call(2), call(3)],
            refund_receiver: Address::parse(REFUND).unwrap(),
        }
    );
    assert_eq!(processor.process_request(request(4)).account, K2);
}

#[test]
fn rejected_batch_leaves_the_rotation_untouched() {
    let mut processor = Processor::try_new(config(&[K1, K2])).unwrap();
    let rejected =
        processor.process_batch_request(vec![request(1)], "not-an-address".to_string());
    assert_eq!(rejected, Err(ProcessorError::InvalidAddress));
    assert_eq!(processor.process_request(request(2)).account, K1);
}

#[test]
fn accepted_broadcast_becomes_a_pending_submission() {
    let processor = Processor::try_new(config(&[K1])).unwrap();
    let pending = processor.record_broadcast(
        vec!["0x01".to_string(), "0x02".to_string()],
        BroadcastOutcome::Accepted { transaction_hash: "0xabc".to_string() },
        1_700_000_123,
    );
    assert_eq!(
        pending,
        Ok(PendingSubmission {
            chain_id: 31337,
            transaction_hash: "0xabc".to_string(),
            request_ids: vec!["0x01".to_string(), "0x02".to_string()],
            submitted_at: 1_700_000_123,
        })
    );
}

#[test]
fn rejected_broadcast_is_surfaced_as_submission_error() {
    let processor = Processor::try_new(config(&[K1])).unwrap();
    let rejected = processor.record_broadcast(
        vec!["0x01".to_string()],
        BroadcastOutcome::Rejected { reason: "insufficient funds".to_string() },
        1_700_000_123,
    );
    assert_eq!(
        rejected,
        Err(ProcessorError::Submission { reason: "insufficient funds".to_string() })
    );
}
