use relayer_primitives::configs::ChainsConfig;
use relayer_primitives::primitives::{Address, U256, U48};
use relayer_primitives::processor::{BroadcastOutcome, ForwardRequestData, Processor};
use relayer_primitives::relay::{
    generate_request_id, Receipt, RequestState, RequestStatus, WatchOutcome,
};

fn request(tag: u8) -> ForwardRequestData {
    ForwardRequestData {
        from: Address { bytes: [tag; 20] },
        to: Address { bytes: [0x11; 20] },
        value: U256::from_u64(0),
        gas: U256::from_u64(100_000),
        deadline: U48::new(1_800_000_000).unwrap(),
        data: vec![tag],
        signature: vec![tag; 65],
    }
}

#[test]
fn two_requests_from_a_pool_of_two_end_in_success() {
    let config = ChainsConfig::new(
        None,
        "http://localhost:8545".to_string(),
        31337,
        vec!["K1".to_string(), "K2".to_string()],
        "0x5FbDB2315678afecb367f032d93F642f64180aa3".to_string(),
    );
    let forwarder = Address::parse(&config.trusted_forwarder).unwrap();
    let mut processor = Processor::new(config, forwarder);

    let id1 = generate_request_id();
    let id2 = generate_request_id();
    let mut status1 = RequestStatus::pending(31337, id1.clone(), 1_700_000_000);
    let mut status2 = RequestStatus::pending(31337, id2.clone(), 1_700_000_001);

    let first = processor.process_request(request(1));
    assert_eq!(first.account, "K1");
    let second = processor.process_request(request(2));
    assert_eq!(second.account, "K2");

    let pending1 = processor
        .record_broadcast(
            vec![id1.clone()],
            BroadcastOutcome::Accepted { transaction_hash: "0xaa".to_string() },
            1_700_000_002,
        )
        .unwrap();
    let pending2 = processor
        .record_broadcast(
            vec![id2.clone()],
            BroadcastOutcome::Accepted { transaction_hash: "0xbb".to_string() },
            1_700_000_003,
        )
        .unwrap();
    assert_eq!(pending1.request_ids, vec![id1.clone()]);
    assert_eq!(pending2.request_ids, vec![id2.clone()]);

    // the second transaction is mined first: the watches are independent
    let receipt2 = Receipt {
        success: true,
        transaction_hash: pending2.transaction_hash.clone(),
        block_number: 7,
        mined_at: 1_700_000_010,
        gas_used: 60_000,
    };
    assert_eq!(status2.settle(&WatchOutcome::Mined(receipt2)), RequestState::Success);
    assert_eq!(status1.request_state, RequestState::Pending);

    let receipt1 = Receipt {
        success: true,
        transaction_hash: pending1.transaction_hash.clone(),
        block_number: 8,
        mined_at: 1_700_000_022,
        gas_used: 61_000,
    };
    assert_eq!(status1.settle(&WatchOutcome::Mined(receipt1)), RequestState::Success);

    assert_eq!(status1.request_state, RequestState::Success);
    assert_eq!(status1.request_id, id1);
    assert_eq!(status1.transaction_hash, "0xaa");
    assert_eq!(status1.block_number, 8);
    assert_eq!(status2.request_state, RequestState::Success);
    assert_eq!(status2.request_id, id2);
    assert_eq!(status2.transaction_hash, "0xbb");
    assert_eq!(status2.block_number, 7);
}
