use anvil_firehose::firehose::{
    firehose_log_items, new_tracer, BigInt, CallScheme, CallType, CreateScheme, FirehoseHeader,
    Header, Hex, Log, PoolTransaction, PrinterTracer, Signature, TraceCallType, TransactTo,
    Tracer, TxData, TxEnv, TxType, TypedReceipt, TypedTransaction,
};
use anvil_firehose::u256::Uint256;

fn rep(pair: &str, n: usize) -> String {
    pair.repeat(n)
}

fn legacy_tx() -> PoolTransaction {
    PoolTransaction {
        hash: [0xaa; 32],
        transaction: TypedTransaction::Legacy {
            signature: Signature { r: Uint256::from_u64(1), s: Uint256::from_u64(2), v: 27 },
        },
    }
}

fn call_env() -> TxEnv {
    TxEnv {
        caller: [0x22; 20],
        gas_limit: 21000,
        gas_price: Uint256::from_u64(1_000_000_000),
        transact_to: TransactTo::Call([0x11; 20]),
        value: Uint256::from_u64(255),
        data: vec![],
        nonce: Some(5),
    }
}

#[test]
fn hex_of_no_bytes_is_dot() {
    assert_eq!(Hex(&[]).to_string(), ".");
}

#[test]
fn hex_of_zero_bytes_is_dot() {
    assert_eq!(Hex(&[0, 0, 0]).to_string(), ".");
}

#[test]
fn hex_keeps_leading_zero_bytes() {
    assert_eq!(Hex(&[0x00, 0x10, 0xab, 0x0f]).to_string(), "0010ab0f");
}

#[test]
fn big_int_of_zero_is_dot() {
    assert_eq!(BigInt(&Uint256::from_u64(0)).to_string(), ".");
}

#[test]
fn big_int_prints_all_32_bytes() {
    let expected = format!("{}01", rep("00", 31));
    assert_eq!(BigInt(&Uint256::from_u64(1)).to_string(), expected);
    let high = Uint256 { limbs: [0, 0, 0, 0x8000_0000_0000_0000] };
    assert_eq!(BigInt(&high).to_string(), format!("80{}", rep("00", 31)));
    let mixed = Uint256 { limbs: [0x0102, 0, 0xff, 0] };
    assert_eq!(
        BigInt(&mixed).to_string(),
        format!("{}{}{}{}", rep("00", 8), rep("00", 7) + "ff", rep("00", 8), rep("00", 6) + "0102")
    );
}

#[test]
fn call_type_names() {
    assert_eq!(CallType::CALL.to_string(), "CALL");
    assert_eq!(CallType::CREATE.to_string(), "CREATE");
    assert_eq!(CallType::CREATE2.to_string(), "CREATE");
    assert_eq!(CallType::CALLCODE.to_string(), "CALLCODE");
    assert_eq!(CallType::STATICCALL.to_string(), "STATIC");
    assert_eq!(CallType::DELEGATECALL.to_string(), "DELEGATE");
}

#[test]
fn call_type_conversions() {
    assert_eq!(CallType::from_trace_call_type(&TraceCallType::Call), CallType::CALL);
    assert_eq!(CallType::from_trace_call_type(&TraceCallType::CallCode), CallType::CALLCODE);
    assert_eq!(CallType::from_trace_call_type(&TraceCallType::DelegateCall), CallType::DELEGATECALL);
    assert_eq!(CallType::from_trace_call_type(&TraceCallType::StaticCall), CallType::STATICCALL);
    assert_eq!(CallType::from_call_scheme(&CallScheme::Call), CallType::CALL);
    assert_eq!(CallType::from_call_scheme(&CallScheme::CallCode), CallType::CALLCODE);
    assert_eq!(CallType::from_call_scheme(&CallScheme::DelegateCall), CallType::DELEGATECALL);
    assert_eq!(CallType::from_call_scheme(&CallScheme::StaticCall), CallType::STATICCALL);
    assert_eq!(CallType::from_create_scheme(&CreateScheme::Create), CallType::CREATE);
    assert_eq!(
        CallType::from_create_scheme(&CreateScheme::Create2 { salt: Uint256::from_u64(9) }),
        CallType::CREATE2
    );
}

#[test]
fn tx_type_numbers() {
    assert_eq!(TxType::Legacy.as_u8(), 0);
    assert_eq!(TxType::AccessList.as_u8(), 1);
    assert_eq!(TxType::DynamicFee.as_u8(), 2);
    assert_eq!(TxType::default(), TxType::Legacy);
}

#[test]
fn tx_data_of_legacy_transaction() {
    let d = TxData::from_pool_transaction(&legacy_tx());
    assert_eq!(d.tx_type, TxType::Legacy);
    assert_eq!(d.hash, [0xaa; 32]);
    assert_eq!(d.v, 27);
    let mut r = [0u8; 32];
    r[31] = 1;
    let mut s = [0u8; 32];
    s[31] = 2;
    assert_eq!(d.r, r);
    assert_eq!(d.s, s);
    assert_eq!(d.max_fee_per_gas, None);
    assert_eq!(d.max_priority_fee_per_gas, None);
}

#[test]
fn tx_data_of_typed_transactions() {
    let access = PoolTransaction {
        hash: [1; 32],
        transaction: TypedTransaction::EIP2930 { odd_y_parity: true, r: [3; 32], s: [4; 32] },
    };
    let d = TxData::from_pool_transaction(&access);
    assert_eq!(d.tx_type, TxType::AccessList);
    assert_eq!((d.v, d.r, d.s), (1, [3; 32], [4; 32]));
    assert_eq!(d.max_fee_per_gas, None);

    let dynamic = PoolTransaction {
        hash: [2; 32],
        transaction: TypedTransaction::EIP1559 {
            odd_y_parity: false,
            r: [5; 32],
            s: [6; 32],
            max_fee_per_gas: Uint256::from_u64(100),
            max_priority_fee_per_gas: Uint256::from_u64(7),
        },
    };
    let d = TxData::from_pool_transaction(&dynamic);
    assert_eq!(d.tx_type, TxType::DynamicFee);
    assert_eq!(d.v, 0);
    assert_eq!(d.max_fee_per_gas, Some(Uint256::from_u64(100)));
    assert_eq!(d.max_priority_fee_per_gas, Some(Uint256::from_u64(7)));
}

#[test]
fn block_lines() {
    let mut t = PrinterTracer::new();
    assert!(t.enabled());
    assert_eq!(t.record_init(), "FIRE INIT 2.1 anvil 1.0");
    assert_eq!(t.start_block(42), "FIRE BEGIN_BLOCK 42");
    assert_eq!(t.finalize_block(0), "FIRE FINALIZE_BLOCK 0");
    assert_eq!(t.start_block(u64::MAX), "FIRE BEGIN_BLOCK 18446744073709551615");
    let big = Uint256 { limbs: [0, 1, 0, 0] };
    assert_eq!(t.end_block(&big, 512, "{}"), "FIRE END_BLOCK 18446744073709551616 512 {}");
}

#[test]
fn transaction_lines() {
    let mut t = PrinterTracer::new();
    assert!(!t.in_transaction());
    t.start_transaction(TxData::from_pool_transaction(&legacy_tx()));
    assert!(t.in_transaction());
    assert!(!t.can_end_call());

    let (data, from) = t.record_start_transaction(&call_env()).unwrap();
    let expected = format!(
        "FIRE BEGIN_APPLY_TRX {} {} ff 27 {}01 {}02 21000 3b9aca00 5 . 00 . . 0 0",
        rep("aa", 32),
        rep("11", 20),
        rep("00", 31),
        rep("00", 31)
    );
    assert_eq!(data, expected);
    assert_eq!(from, format!("FIRE TRX_FROM {}", rep("22", 20)));
    // Printed once per transaction.
    assert!(t.record_start_transaction(&call_env()).is_none());

    let mut bloom = [0u8; 256];
    bloom[0] = 0xab;
    bloom[255] = 0x01;
    let receipt = TypedReceipt { gas_used: Uint256::from_u64(21000), logs_bloom: bloom, logs: vec![] };
    let line = t.end_transaction(&Uint256::from_u64(42000), &receipt, "[]");
    assert_eq!(
        line,
        format!("FIRE END_APPLY_TRX 21000 . 42000 ab{}01 0 []", rep("00", 254))
    );
    assert!(!t.in_transaction());

    // The next transaction prints its opening again.
    t.start_transaction(TxData::from_pool_transaction(&legacy_tx()));
    assert!(t.record_start_transaction(&call_env()).is_some());
}

#[test]
fn creation_transaction_line() {
    let mut t = PrinterTracer::new();
    let dynamic = PoolTransaction {
        hash: [0; 32],
        transaction: TypedTransaction::EIP1559 {
            odd_y_parity: true,
            r: [0; 32],
            s: [0xff; 32],
            max_fee_per_gas: Uint256::from_u64(100),
            max_priority_fee_per_gas: Uint256::from_u64(0),
        },
    };
    t.start_transaction(TxData::from_pool_transaction(&dynamic));
    let env = TxEnv {
        caller: [0; 20],
        gas_limit: 0,
        gas_price: Uint256::from_u64(0),
        transact_to: TransactTo::Create,
        value: Uint256::from_u64(0),
        data: vec![0x60, 0x80],
        nonce: None,
    };
    let (data, from) = t.record_start_transaction(&env).unwrap();
    let expected = format!(
        "FIRE BEGIN_APPLY_TRX {} . 0 1 . {} 0 0 0 6080 00 100 0 2 0",
        rep("00", 32),
        rep("ff", 32)
    );
    assert_eq!(data, expected);
    assert_eq!(from, format!("FIRE TRX_FROM {}", rep("00", 20)));
}

#[test]
fn call_lines() {
    let mut t = PrinterTracer::new();
    t.start_transaction(TxData::from_pool_transaction(&legacy_tx()));
    assert!(t.can_start_call());
    assert_eq!(t.start_call(CallType::CALL), "FIRE EVM_RUN_CALL CALL 1 0");
    let params = t.record_call_params(
        CallType::CALL,
        &[0x33; 20],
        Some([0x44; 20]),
        &Uint256::from_u64(0),
        100,
        &[0xde, 0xad],
    );
    assert_eq!(params, format!("FIRE EVM_PARAM CALL 1 {} {} . 100 dead", rep("33", 20), rep("44", 20)));
    let params = t.record_call_params(
        CallType::CREATE2,
        &[0x33; 20],
        None,
        &Uint256::from_u64(16),
        0,
        &[],
    );
    assert_eq!(
        params,
        format!("FIRE EVM_PARAM CREATE 1 {} . {}10 0 .", rep("33", 20), rep("00", 31))
    );
    assert!(t.can_end_call());
    assert_eq!(t.end_call(500, &[]), "FIRE EVM_END_CALL 1 500 . 0");
    assert!(!t.can_end_call());
}

#[test]
fn nested_calls_close_in_reverse_order() {
    let mut t = PrinterTracer::new();
    t.start_transaction(TxData::from_pool_transaction(&legacy_tx()));
    assert_eq!(t.start_call(CallType::CALL), "FIRE EVM_RUN_CALL CALL 1 0");
    assert_eq!(t.start_call(CallType::STATICCALL), "FIRE EVM_RUN_CALL STATIC 2 0");
    assert_eq!(t.start_call(CallType::DELEGATECALL), "FIRE EVM_RUN_CALL DELEGATE 3 0");
    assert_eq!(t.end_call(1, &[1]), "FIRE EVM_END_CALL 3 1 01 0");
    assert!(t.record_log(&[0; 20], &[], &[]).starts_with("FIRE ADD_LOG 2 "));
    assert_eq!(t.start_call(CallType::CALLCODE), "FIRE EVM_RUN_CALL CALLCODE 4 0");
    assert_eq!(t.end_call(2, &[]), "FIRE EVM_END_CALL 4 2 . 0");
    assert_eq!(t.end_call(3, &[]), "FIRE EVM_END_CALL 2 3 . 0");
    assert_eq!(t.end_call(4, &[]), "FIRE EVM_END_CALL 1 4 . 0");
    assert!(!t.can_end_call());
}

#[test]
fn log_lines() {
    let mut t = PrinterTracer::new();
    t.start_transaction(TxData::from_pool_transaction(&legacy_tx()));
    t.start_call(CallType::CALL);
    let line = t.record_log(&[0x55; 20], &[[0x01; 32], [0; 32]], &[0x0a]);
    assert_eq!(line, format!("FIRE ADD_LOG 1 0 {} {},. 0a 0", rep("55", 20), rep("01", 32)));
    let line = t.record_log(&[0x55; 20], &[], &[]);
    assert_eq!(line, format!("FIRE ADD_LOG 1 0 {}  . 0", rep("55", 20)));
    let line = t.record_log(&[0; 20], &[[0; 32], [0; 32], [0xff; 32]], &[0]);
    assert_eq!(line, format!("FIRE ADD_LOG 1 0 {} .,.,{} . 0", rep("00", 20), rep("ff", 32)));
}

#[test]
fn no_op_tracer_prints_nothing() {
    let mut t = new_tracer(false);
    assert!(!t.enabled());
    assert!(matches!(t, Tracer::NoOp(_)));
    assert!(t.record_init().is_none());
    assert!(t.start_block(1).is_none());
    assert!(t.finalize_block(1).is_none());
    assert!(t.end_block(&Uint256::from_u64(1), 1, "{}").is_none());
    t.start_transaction(TxData::from_pool_transaction(&legacy_tx()));
    assert!(!t.in_transaction());
    assert!(t.record_start_transaction(&call_env()).is_none());
    assert!(t.start_call(CallType::CALL).is_none());
    assert!(t.end_call(0, &[]).is_none());
    assert!(t.record_log(&[0; 20], &[], &[]).is_none());
    assert!(t.inspector().is_none());
}

#[test]
fn enabled_tracer_prints() {
    let mut t = new_tracer(true);
    assert!(t.enabled());
    assert_eq!(t.start_block(3).unwrap(), "FIRE BEGIN_BLOCK 3");
    t.start_transaction(TxData::from_pool_transaction(&legacy_tx()));
    assert!(t.in_transaction());
    assert_eq!(t.start_call(CallType::CREATE).unwrap(), "FIRE EVM_RUN_CALL CREATE 1 0");
    assert_eq!(t.end_call(7, &[]).unwrap(), "FIRE EVM_END_CALL 1 7 . 0");
}

#[test]
fn inspector_call_and_create() {
    let mut t = new_tracer(true);
    t.start_transaction(TxData::from_pool_transaction(&legacy_tx()));
    {
        let mut i = t.inspector().unwrap();
        let (start, run, params) = i.call(
            &call_env(),
            &CallScheme::StaticCall,
            &[0x22; 20],
            &[0x11; 20],
            &Uint256::from_u64(0),
            5000,
            &[],
        );
        assert!(start.is_some());
        assert_eq!(run, "FIRE EVM_RUN_CALL STATIC 1 0");
        assert_eq!(params, format!("FIRE EVM_PARAM STATIC 1 {} {} . 5000 .", rep("22", 20), rep("11", 20)));
        let (start, run) = i.create(&call_env(), &CreateScheme::Create);
        assert!(start.is_none());
        assert_eq!(run, "FIRE EVM_RUN_CALL CREATE 2 0");
        assert_eq!(i.create_end(10, &[0xbe, 0xef]), "FIRE EVM_END_CALL 2 10 beef 0");
        assert!(i.log(&[0; 20], &[], &[]).starts_with("FIRE ADD_LOG 1 0 "));
        assert_eq!(i.call_end(20, &[]), "FIRE EVM_END_CALL 1 20 . 0");
    }
    assert!(!t.can_end_call());
}

#[test]
fn firehose_header_from_header() {
    let header = Header {
        hash: [1; 32],
        parent_hash: [2; 32],
        ommers_hash: [3; 32],
        beneficiary: [4; 20],
        state_root: [5; 32],
        transactions_root: [6; 32],
        receipts_root: [7; 32],
        logs_bloom: [8; 256],
        difficulty: Uint256::from_u64(9),
        number: Uint256::from_u64(10),
        gas_limit: Uint256::from_u64(11),
        gas_used: Uint256::from_u64(12),
        timestamp: 0x0102_0304_0506_0708,
        extra_data: vec![0xca, 0xfe],
        mix_hash: [13; 32],
        nonce: [14; 8],
        base_fee_per_gas: Some(Uint256::from_u64(15)),
    };
    let h = FirehoseHeader::from_header(&header);
    assert_eq!(h.hash, [1; 32]);
    assert_eq!(h.parent_hash, [2; 32]);
    assert_eq!(h.beneficiary, [4; 20]);
    assert_eq!(h.timestamp, [1, 2, 3, 4, 5, 6, 7, 8]);
    assert_eq!(h.extra_data, vec![0xca, 0xfe]);
    assert_eq!(h.number, Uint256::from_u64(10));
    assert_eq!(h.nonce, [14; 8]);
    assert_eq!(h.base_fee_per_gas, Some(Uint256::from_u64(15)));
}

#[test]
fn log_items_of_receipt() {
    let receipt = TypedReceipt {
        gas_used: Uint256::from_u64(0),
        logs_bloom: [0; 256],
        logs: vec![
            Log { address: [1; 20], topics: vec![[9; 32]], data: vec![1, 2] },
            Log { address: [2; 20], topics: vec![], data: vec![] },
        ],
    };
    let items = firehose_log_items(&receipt);
    assert_eq!(items.len(), 2);
    assert_eq!(items[0].address, [1; 20]);
    assert_eq!(items[0].data, vec![1, 2]);
    assert_eq!(items[1].address, [2; 20]);
    assert!(items[1].data.is_empty());
}
