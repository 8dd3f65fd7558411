//! The Firehose tracer: what it prints for each event of block execution, and
//! the state it keeps between events (the active transaction and call stack).
use vstd::prelude::*;
use vstd::string::StringExecFns;
use crate::encoding::{
    all_zero, decimal, hex_pairs, hex_pairs_value, is_all_zero, law_hex_pairs_round_trip, push_char,
    push_decimal, push_hex_pairs,
};
use crate::u256::{
    bloom_to_lower_hex, h160_to_lower_hex, h256_to_lower_hex, h64_from_low_u64_be, lower_hex,
    u256_be_bytes, u256_is_zero, u256_to_big_endian, u256_to_decimal, u256_to_lower_hex,
    lemma_u64_be_bytes_zero, u64_be_bytes, Uint256,
};

verus! {

/// How `Hex` shows bytes: `"."` when there are none or all are zero, else
/// every byte as two lower-case hexadecimal digits.
pub open spec fn hex_display(bytes: Seq<u8>) -> Seq<char> {
    if bytes.len() == 0 || all_zero(bytes) {
        "."@
    } else {
        hex_pairs(bytes)
    }
}

/// How `BigInt` shows a 256-bit word: `"."` for zero, else as `Hex` shows its
/// 32 big-endian bytes.
pub open spec fn big_int_display(x: Uint256) -> Seq<char> {
    if x@ == 0 {
        "."@
    } else {
        hex_display(u256_be_bytes(x))
    }
}

/// Bytes shown in the Firehose hexadecimal form.
pub struct Hex<'a>(pub &'a [u8]);

impl<'a> Hex<'a> {
    /// The text of the bytes: see `hex_display`.
    pub fn to_string(&self) -> (s: String)
        ensures
            s@ == hex_display(self.0@),
    {
        if self.0.len() == 0 {
            return String::from_str(".");
        }
        if is_all_zero(self.0) {
            return String::from_str(".");
        }
        let mut s = String::new();
        push_hex_pairs(&mut s, self.0);
        s
    }
}

/// A 256-bit number shown in the Firehose form.
pub struct BigInt<'a>(pub &'a Uint256);

impl<'a> BigInt<'a> {
    /// The text of the number: see `big_int_display`.
    pub fn to_string(&self) -> (s: String)
        ensures
            s@ == big_int_display(*self.0),
    {
        if u256_is_zero(self.0) {
            return String::from_str(".");
        }
        let bytes = u256_to_big_endian(self.0);
        Hex(&bytes).to_string()
    }
}


/// The kind of an EVM call, as Firehose names it.
#[allow(non_camel_case_types)]
#[derive(Clone, Copy, Debug, PartialEq, Eq, Structural)]
pub enum CallType {
    CALL,
    CREATE,
    CREATE2,
    CALLCODE,
    STATICCALL,
    DELEGATECALL,
}

/// The name Firehose prints for a call kind; both create kinds print `CREATE`.
pub open spec fn call_type_name(t: CallType) -> Seq<char> {
    match t {
        CallType::CALL => "CALL"@,
        CallType::CREATE => "CREATE"@,
        CallType::CREATE2 => "CREATE"@,
        CallType::CALLCODE => "CALLCODE"@,
        CallType::STATICCALL => "STATIC"@,
        CallType::DELEGATECALL => "DELEGATE"@,
    }
}

/// The call kinds of ethers' trace types (`ethers::types::CallType`).
#[derive(Clone, Copy, Debug, PartialEq, Eq, Structural)]
pub enum TraceCallType {
    Unset,
    Call,
    CallCode,
    DelegateCall,
    StaticCall,
}

/// The message-call schemes of the EVM (`revm::CallScheme`).
#[derive(Clone, Copy, Debug, PartialEq, Eq, Structural)]
pub enum CallScheme {
    Call,
    CallCode,
    DelegateCall,
    StaticCall,
}

/// The contract-creation schemes of the EVM (`revm::CreateScheme`).
#[derive(Clone, Copy, Debug, PartialEq, Eq)]
pub enum CreateScheme {
    Create,
    Create2 { salt: Uint256 },
}

impl CallType {
    /// The call kind of a message-call scheme.
    pub open spec fn spec_from_call_scheme(scheme: CallScheme) -> CallType {
        match scheme {
            CallScheme::Call => CallType::CALL,
            CallScheme::CallCode => CallType::CALLCODE,
            CallScheme::DelegateCall => CallType::DELEGATECALL,
            CallScheme::StaticCall => CallType::STATICCALL,
        }
    }

    /// The call kind of a creation scheme.
    pub open spec fn spec_from_create_scheme(scheme: CreateScheme) -> CallType {
        match scheme {
            CreateScheme::Create => CallType::CREATE,
            CreateScheme::Create2 { .. } => CallType::CREATE2,
        }
    }

    /// The name Firehose prints for this call kind: see `call_type_name`.
    pub fn to_string(&self) -> (s: String)
        ensures
            s@ == call_type_name(*self),
    {
        match self {
            CallType::CALL => String::from_str("CALL"),
            CallType::CREATE => String::from_str("CREATE"),
            CallType::CREATE2 => String::from_str("CREATE"),
            CallType::CALLCODE => String::from_str("CALLCODE"),
            CallType::STATICCALL => String::from_str("STATIC"),
            CallType::DELEGATECALL => String::from_str("DELEGATE"),
        }
    }

    /// The call kind of a traced call; a trace whose call kind is unset has none.
    pub fn from_trace_call_type(t: &TraceCallType) -> (c: CallType)
        requires
            *t != TraceCallType::Unset,
        ensures
            c == match *t {
                TraceCallType::Call => CallType::CALL,
                TraceCallType::CallCode => CallType::CALLCODE,
                TraceCallType::DelegateCall => CallType::DELEGATECALL,
                _ => CallType::STATICCALL,
            },
    {
        match t {
            TraceCallType::Call => CallType::CALL,
            TraceCallType::CallCode => CallType::CALLCODE,
            TraceCallType::DelegateCall => CallType::DELEGATECALL,
            _ => CallType::STATICCALL,
        }
    }

    /// The call kind of a message call.
    pub fn from_call_scheme(scheme: &CallScheme) -> (c: CallType)
        ensures
            c == CallType::spec_from_call_scheme(*scheme),
    {
        match scheme {
            CallScheme::Call => CallType::CALL,
            CallScheme::CallCode => CallType::CALLCODE,
            CallScheme::DelegateCall => CallType::DELEGATECALL,
            CallScheme::StaticCall => CallType::STATICCALL,
        }
    }

    /// The call kind of a contract creation.
    pub fn from_create_scheme(scheme: &CreateScheme) -> (c: CallType)
        ensures
            c == CallType::spec_from_create_scheme(*scheme),
    {
        match scheme {
            CreateScheme::Create => CallType::CREATE,
            CreateScheme::Create2 { salt: _ } => CallType::CREATE2,
        }
    }
}

/// The envelope type of a transaction.
#[derive(Clone, Copy, Debug, Default, PartialEq, Eq, Structural)]
pub enum TxType {
    #[default]
    Legacy,
    AccessList,
    DynamicFee,
}

/// The number of a transaction envelope type.
pub open spec fn tx_type_number(t: TxType) -> u8 {
    match t {
        TxType::Legacy => 0,
        TxType::AccessList => 1,
        TxType::DynamicFee => 2,
    }
}

impl TxType {
    /// The number of this envelope type: 0 legacy, 1 access list, 2 dynamic fee.
    pub fn as_u8(&self) -> (n: u8)
        ensures
            n == tx_type_number(*self),
    {
        match self {
            TxType::Legacy => 0,
            TxType::AccessList => 1,
            TxType::DynamicFee => 2,
        }
    }
}


/// The signature of a legacy transaction.
#[derive(Clone, Copy, Debug, PartialEq, Eq)]
pub struct Signature {
    pub r: Uint256,
    pub s: Uint256,
    pub v: u64,
}

/// A signed transaction in one of the three envelope types, with the fields
/// the tracer reads.
#[derive(Clone, Copy, Debug, PartialEq, Eq)]
pub enum TypedTransaction {
    Legacy { signature: Signature },
    EIP2930 { odd_y_parity: bool, r: [u8; 32], s: [u8; 32] },
    EIP1559 {
        odd_y_parity: bool,
        r: [u8; 32],
        s: [u8; 32],
        max_fee_per_gas: Uint256,
        max_priority_fee_per_gas: Uint256,
    },
}

/// A transaction taken from the pool for execution, with its hash.
#[derive(Clone, Copy, Debug, PartialEq, Eq)]
pub struct PoolTransaction {
    pub hash: [u8; 32],
    pub transaction: TypedTransaction,
}

/// What the tracer keeps of the transaction being executed.
#[derive(Clone, Copy, Debug, PartialEq, Eq)]
pub struct TxData {
    pub tx_type: TxType,
    pub hash: [u8; 32],
    pub max_fee_per_gas: Option<Uint256>,
    pub max_priority_fee_per_gas: Option<Uint256>,
    pub v: u64,
    pub r: [u8; 32],
    pub s: [u8; 32],
}

impl TxData {
    /// The data of a pool transaction: its hash, its envelope type, its fee
    /// caps (dynamic-fee transactions only) and its signature, with `r` and
    /// `s` as 32 big-endian bytes and `v` as the parity bit for typed
    /// transactions.
    pub fn from_pool_transaction(tx: &PoolTransaction) -> (d: TxData)
        ensures
            d.hash == tx.hash,
            match tx.transaction {
                TypedTransaction::Legacy { signature } => {
                    &&& d.tx_type == TxType::Legacy
                    &&& d.max_fee_per_gas is None
                    &&& d.max_priority_fee_per_gas is None
                    &&& d.v == signature.v
                    &&& d.r@ == u256_be_bytes(signature.r)
                    &&& d.s@ == u256_be_bytes(signature.s)
                },
                TypedTransaction::EIP2930 { odd_y_parity, r, s } => {
                    &&& d.tx_type == TxType::AccessList
                    &&& d.max_fee_per_gas is None
                    &&& d.max_priority_fee_per_gas is None
                    &&& d.v == (if odd_y_parity { 1u64 } else { 0u64 })
                    &&& d.r == r
                    &&& d.s == s
                },
                TypedTransaction::EIP1559 {
                    odd_y_parity,
                    r,
                    s,
                    max_fee_per_gas,
                    max_priority_fee_per_gas,
                } => {
                    &&& d.tx_type == TxType::DynamicFee
                    &&& d.max_fee_per_gas == Some(max_fee_per_gas)
                    &&& d.max_priority_fee_per_gas == Some(max_priority_fee_per_gas)
                    &&& d.v == (if odd_y_parity { 1u64 } else { 0u64 })
                    &&& d.r == r
                    &&& d.s == s
                },
            },
    {
        let (tx_type, max_fee_per_gas, max_priority_fee_per_gas, v, r, s) = match &tx.transaction {
            TypedTransaction::Legacy { signature } => {
                let r_bytes = u256_to_big_endian(&signature.r);
                let s_bytes = u256_to_big_endian(&signature.s);
                (TxType::Legacy, None, None, signature.v, r_bytes, s_bytes)
            },
            TypedTransaction::EIP2930 { odd_y_parity, r, s } => {
                let v: u64 = if *odd_y_parity { 1 } else { 0 };
                (TxType::AccessList, None, None, v, *r, *s)
            },
            TypedTransaction::EIP1559 {
                odd_y_parity,
                r,
                s,
                max_fee_per_gas,
                max_priority_fee_per_gas,
            } => {
                let v: u64 = if *odd_y_parity { 1 } else { 0 };
                (
                    TxType::DynamicFee,
                    Some(*max_fee_per_gas),
                    Some(*max_priority_fee_per_gas),
                    v,
                    *r,
                    *s,
                )
            },
        };
        TxData { hash: tx.hash, tx_type, max_fee_per_gas, max_priority_fee_per_gas, v, r, s }
    }
}


/// Where an executed transaction goes: a call to an address, or a creation.
#[derive(Clone, Copy, Debug, PartialEq, Eq)]
pub enum TransactTo {
    Call([u8; 20]),
    Create,
}

/// The environment the EVM executes a transaction in, with the fields the
/// tracer reads.
#[derive(Clone, Debug)]
pub struct TxEnv {
    pub caller: [u8; 20],
    pub gas_limit: u64,
    pub gas_price: Uint256,
    pub transact_to: TransactTo,
    pub value: Uint256,
    pub data: Vec<u8>,
    pub nonce: Option<u64>,
}

/// A space.
pub open spec fn sp() -> Seq<char> {
    seq![' ']
}

/// The decimal text of an optional number, `"."` when absent.
pub open spec fn optional_decimal(x: Option<Uint256>) -> Seq<char> {
    match x {
        Some(v) => decimal(v@),
        None => "."@,
    }
}

/// The hexadecimal text of an optional address, `"."` when absent.
pub open spec fn optional_address(a: Option<[u8; 20]>) -> Seq<char> {
    match a {
        Some(addr) => hex_pairs(addr@),
        None => "."@,
    }
}

/// The text of a transaction's destination: the address, `"."` for a creation.
pub open spec fn transact_to_text(to: TransactTo) -> Seq<char> {
    match to {
        TransactTo::Call(addr) => hex_pairs(addr@),
        TransactTo::Create => "."@,
    }
}

/// The nonce that is printed: the transaction's, or 0 when it has none.
pub open spec fn nonce_or_zero(n: Option<u64>) -> nat {
    match n {
        Some(x) => x as nat,
        None => 0,
    }
}

/// `FIRE INIT 2.1 anvil 1.0`
pub open spec fn init_line() -> Seq<char> {
    "FIRE INIT 2.1 anvil 1.0"@
}

/// `FIRE BEGIN_BLOCK <number>`
pub open spec fn begin_block_line(number: u64) -> Seq<char> {
    "FIRE BEGIN_BLOCK "@ + decimal(number as nat)
}

/// `FIRE FINALIZE_BLOCK <number>`
pub open spec fn finalize_block_line(number: u64) -> Seq<char> {
    "FIRE FINALIZE_BLOCK "@ + decimal(number as nat)
}

/// `FIRE END_BLOCK <number> <size> <data>`
pub open spec fn end_block_line(number: Uint256, size: usize, data: Seq<char>) -> Seq<char> {
    "FIRE END_BLOCK "@ + decimal(number@) + sp() + decimal(size as nat) + sp() + data
}

/// The identity part of a transaction's opening line:
/// `<hash> <to> <value> <v> <r> <s>`.
pub open spec fn trx_identity_text(tx: TxData, env: TxEnv) -> Seq<char> {
    hex_pairs(tx.hash@) + sp() + transact_to_text(env.transact_to) + sp() + lower_hex(env.value@)
        + sp() + decimal(tx.v as nat) + sp() + hex_display(tx.r@) + sp() + hex_display(tx.s@)
}

/// The execution part of a transaction's opening line:
/// `<gas limit> <gas price> <nonce> <data> 00` (the access list is always `00`).
pub open spec fn trx_execution_text(env: TxEnv) -> Seq<char> {
    decimal(env.gas_limit as nat) + sp() + lower_hex(env.gas_price@) + sp() + decimal(
        nonce_or_zero(env.nonce),
    ) + sp() + hex_display(env.data@) + " 00"@
}

/// The fee part of a transaction's opening line:
/// `<max fee> <max priority fee> <type> 0`.
pub open spec fn trx_fee_text(tx: TxData) -> Seq<char> {
    optional_decimal(tx.max_fee_per_gas) + sp() + optional_decimal(tx.max_priority_fee_per_gas)
        + sp() + decimal(tx_type_number(tx.tx_type) as nat) + " 0"@
}

/// `FIRE BEGIN_APPLY_TRX <hash> <to> <value> <v> <r> <s> <gas limit> <gas price>
/// <nonce> <data> 00 <max fee> <max priority fee> <type> 0`
pub open spec fn begin_apply_trx_line(tx: TxData, env: TxEnv) -> Seq<char> {
    "FIRE BEGIN_APPLY_TRX "@ + trx_identity_text(tx, env) + sp() + trx_execution_text(env) + sp()
        + trx_fee_text(tx)
}

/// `FIRE TRX_FROM <caller>`
pub open spec fn trx_from_line(caller: [u8; 20]) -> Seq<char> {
    "FIRE TRX_FROM "@ + hex_pairs(caller@)
}

/// `FIRE END_APPLY_TRX <gas used> . <cumulative gas used> <bloom> 0 <logs>`
pub open spec fn end_apply_trx_line(
    gas_used: Uint256,
    cumulative_gas_used: Uint256,
    bloom: [u8; 256],
    logs: Seq<char>,
) -> Seq<char> {
    "FIRE END_APPLY_TRX "@ + decimal(gas_used@) + " . "@ + decimal(cumulative_gas_used@) + sp()
        + hex_pairs(bloom@) + " 0 "@ + logs
}

/// `FIRE EVM_RUN_CALL <call type> <call index> 0`
pub open spec fn evm_run_call_line(call_type: CallType, call_index: u64) -> Seq<char> {
    "FIRE EVM_RUN_CALL "@ + call_type_name(call_type) + sp() + decimal(call_index as nat) + " 0"@
}

/// `FIRE EVM_PARAM <call type> <call index> <from> <to> <value> <gas limit> <input>`
pub open spec fn evm_param_line(
    call_type: CallType,
    call_index: u64,
    from: [u8; 20],
    to: Option<[u8; 20]>,
    value: Uint256,
    gas_limit: u64,
    input: Seq<u8>,
) -> Seq<char> {
    "FIRE EVM_PARAM "@ + call_type_name(call_type) + sp() + decimal(call_index as nat) + sp()
        + hex_pairs(from@) + sp() + optional_address(to) + sp() + big_int_display(value) + sp()
        + decimal(gas_limit as nat) + sp() + hex_display(input)
}

/// `FIRE EVM_END_CALL <call index> <gas left> <return value> 0`
pub open spec fn evm_end_call_line(call_index: u64, gas_left: u64, return_value: Seq<u8>) -> Seq<
    char,
> {
    "FIRE EVM_END_CALL "@ + decimal(call_index as nat) + sp() + decimal(gas_left as nat) + sp()
        + hex_display(return_value) + " 0"@
}

/// The topics of a log, each shown as `Hex` shows bytes, joined by commas.
pub open spec fn topics_text(topics: Seq<[u8; 32]>) -> Seq<char>
    decreases topics.len(),
{
    if topics.len() == 0 {
        Seq::empty()
    } else if topics.len() == 1 {
        hex_display(topics[0]@)
    } else {
        topics_text(topics.drop_last()).push(',') + hex_display(topics.last()@)
    }
}

/// `FIRE ADD_LOG <call index> 0 <address> <topics> <data> 0`
pub open spec fn add_log_line(
    call_index: u64,
    address: [u8; 20],
    topics: Seq<[u8; 32]>,
    data: Seq<u8>,
) -> Seq<char> {
    "FIRE ADD_LOG "@ + decimal(call_index as nat) + " 0 "@ + hex_pairs(address@) + sp()
        + topics_text(topics) + sp() + hex_display(data) + " 0"@
}


/// A log emitted during execution.
#[derive(Clone, Debug)]
pub struct Log {
    pub address: [u8; 20],
    pub topics: Vec<[u8; 32]>,
    pub data: Vec<u8>,
}

/// The receipt of an executed transaction, with the fields the tracer reads.
#[derive(Clone, Debug)]
pub struct TypedReceipt {
    pub gas_used: Uint256,
    pub logs_bloom: [u8; 256],
    pub logs: Vec<Log>,
}

/// A log as the end of a transaction reports it: its address and data.
#[derive(Clone, Debug)]
pub struct FirehoseLogItem {
    pub address: [u8; 20],
    pub data: Vec<u8>,
}

impl FirehoseLogItem {
    /// The reported part of a log.
    pub fn from_log(log: &Log) -> (item: FirehoseLogItem)
        ensures
            item.address == log.address,
            item.data@ == log.data@,
    {
        FirehoseLogItem { address: log.address, data: copy_bytes(&log.data) }
    }
}

/// A copy of a byte vector.
fn copy_bytes(bytes: &Vec<u8>) -> (r: Vec<u8>)
    ensures
        r@ == bytes@,
{
    let mut r: Vec<u8> = Vec::new();
    let mut i: usize = 0;
    while i < bytes.len()
        invariant
            i <= bytes.len(),
            r@ == bytes@.take(i as int),
        decreases bytes.len() - i,
    {
        r.push(bytes[i]);
        proof {
            assert(bytes@.take(i + 1) =~= bytes@.take(i as int).push(bytes@[i as int]));
        }
        i = i + 1;
    }
    proof {
        assert(bytes@.take(i as int) =~= bytes@);
    }
    r
}

/// The log items a receipt reports, one per log, in order.
pub fn firehose_log_items(receipt: &TypedReceipt) -> (items: Vec<FirehoseLogItem>)
    ensures
        items.len() == receipt.logs.len(),
        forall|i: int|
            0 <= i < items.len() ==> {
                &&& #[trigger] items[i].address == receipt.logs[i].address
                &&& items[i].data@ == receipt.logs[i].data@
            },
{
    let mut items: Vec<FirehoseLogItem> = Vec::new();
    let mut i: usize = 0;
    while i < receipt.logs.len()
        invariant
            i <= receipt.logs.len(),
            items.len() == i,
            forall|j: int|
                0 <= j < i ==> {
                    &&& #[trigger] items[j].address == receipt.logs[j].address
                    &&& items[j].data@ == receipt.logs[j].data@
                },
        decreases receipt.logs.len() - i,
    {
        let item = FirehoseLogItem::from_log(&receipt.logs[i]);
        let ghost before = items@;
        items.push(item);
        proof {
            assert(items@ == before.push(item));
            assert(items@[i as int] == item);
            assert forall|j: int| 0 <= j < i implies #[trigger] items@[j] == before[j] by {}
        }
        i = i + 1;
    }
    items
}

/// A block header, with the fields the tracer reports; `hash` is the hash
/// of the header.
#[derive(Clone, Debug)]
pub struct Header {
    pub hash: [u8; 32],
    pub parent_hash: [u8; 32],
    pub ommers_hash: [u8; 32],
    pub beneficiary: [u8; 20],
    pub state_root: [u8; 32],
    pub transactions_root: [u8; 32],
    pub receipts_root: [u8; 32],
    pub logs_bloom: [u8; 256],
    pub difficulty: Uint256,
    pub number: Uint256,
    pub gas_limit: Uint256,
    pub gas_used: Uint256,
    pub timestamp: u64,
    pub extra_data: Vec<u8>,
    pub mix_hash: [u8; 32],
    pub nonce: [u8; 8],
    pub base_fee_per_gas: Option<Uint256>,
}

/// A block header as the end of a block reports it.
#[derive(Clone, Debug)]
pub struct FirehoseHeader {
    pub hash: [u8; 32],
    pub parent_hash: [u8; 32],
    pub ommers_hash: [u8; 32],
    pub beneficiary: [u8; 20],
    pub state_root: [u8; 32],
    pub transactions_root: [u8; 32],
    pub receipts_root: [u8; 32],
    pub logs_bloom: [u8; 256],
    pub difficulty: Uint256,
    pub number: Uint256,
    pub gas_limit: Uint256,
    pub gas_used: Uint256,
    pub timestamp: [u8; 8],
    pub extra_data: Vec<u8>,
    pub mix_hash: [u8; 32],
    pub nonce: [u8; 8],
    pub base_fee_per_gas: Option<Uint256>,
}

impl FirehoseHeader {
    /// The reported header: every field as in the header, the timestamp as
    /// its eight big-endian bytes.
    pub fn from_header(header: &Header) -> (h: FirehoseHeader)
        ensures
            h.hash == header.hash,
            h.parent_hash == header.parent_hash,
            h.ommers_hash == header.ommers_hash,
            h.beneficiary == header.beneficiary,
            h.state_root == header.state_root,
            h.transactions_root == header.transactions_root,
            h.receipts_root == header.receipts_root,
            h.logs_bloom == header.logs_bloom,
            h.difficulty == header.difficulty,
            h.number == header.number,
            h.gas_limit == header.gas_limit,
            h.gas_used == header.gas_used,
            h.timestamp@ == u64_be_bytes(header.timestamp),
            h.extra_data@ == header.extra_data@,
            h.mix_hash == header.mix_hash,
            h.nonce == header.nonce,
            h.base_fee_per_gas == header.base_fee_per_gas,
    {
        FirehoseHeader {
            hash: header.hash,
            parent_hash: header.parent_hash,
            ommers_hash: header.ommers_hash,
            beneficiary: header.beneficiary,
            state_root: header.state_root,
            transactions_root: header.transactions_root,
            receipts_root: header.receipts_root,
            logs_bloom: header.logs_bloom,
            difficulty: header.difficulty,
            number: header.number,
            gas_limit: header.gas_limit,
            gas_used: header.gas_used,
            timestamp: h64_from_low_u64_be(header.timestamp),
            extra_data: copy_bytes(&header.extra_data),
            mix_hash: header.mix_hash,
            nonce: header.nonce,
            base_fee_per_gas: header.base_fee_per_gas,
        }
    }
}

/// What a printing tracer keeps between events.
#[verifier::ext_equal]
pub struct TracerState {
    /// Index of the next log in the block (reset at the end of each block).
    pub block_log_index: u64,
    /// Ordering counter (reset at the start and finalization of each block).
    pub total_ordering: u64,
    /// The transaction being executed, if any.
    pub active_tx: Option<TxData>,
    /// Whether the start of the active transaction has been printed.
    pub active_tx_recorded: bool,
    /// The index given to the last call opened in the transaction.
    pub call_index_counter: u64,
    /// The indexes of the open calls, innermost last; 0 stands for the
    /// transaction itself.
    pub call_stack: Seq<u64>,
    /// The index of the innermost open call.
    pub active_call_index: u64,
}

impl TracerState {
    /// The state of a new tracer: nothing active, all counters at zero.
    pub open spec fn initial() -> TracerState {
        TracerState {
            block_log_index: 0,
            total_ordering: 0,
            active_tx: None,
            active_tx_recorded: false,
            call_index_counter: 0,
            call_stack: Seq::empty(),
            active_call_index: 0,
        }
    }

    /// The invariant every reachable state keeps: the open calls are in
    /// strictly increasing order, none above the counter, with the
    /// transaction's own entry 0 at the bottom; the active call is the
    /// innermost open one; a transaction always has its own entry open; and
    /// the opening of a transaction is printed only while one is active.
    pub open spec fn wf(self) -> bool {
        &&& self.call_stack.len() > 0 ==> self.call_stack[0] == 0
        &&& self.active_tx_recorded ==> self.active_tx is Some
        &&& forall|i: int, j: int|
            0 <= i < j < self.call_stack.len() ==> self.call_stack[i] < self.call_stack[j]
        &&& forall|i: int|
            0 <= i < self.call_stack.len() ==> self.call_stack[i] <= self.call_index_counter
        &&& self.call_stack.len() > 0 ==> self.active_call_index == self.call_stack.last()
        &&& self.active_tx is Some ==> self.call_stack.len() > 0
    }

    /// Whether a transaction is being executed.
    pub open spec fn in_transaction(self) -> bool {
        self.active_tx is Some
    }

    /// Whether a call can be opened: a transaction is active and the call
    /// counter can still grow.
    pub open spec fn can_start_call(self) -> bool {
        self.in_transaction() && self.call_index_counter < u64::MAX
    }

    /// Whether a call can be closed: a transaction is active and a call other
    /// than the transaction's own entry is open.
    pub open spec fn can_end_call(self) -> bool {
        self.in_transaction() && self.call_stack.len() >= 2
    }

    /// After the start or the finalization of a block.
    pub open spec fn after_block_boundary(self) -> TracerState {
        TracerState { total_ordering: 0, ..self }
    }

    /// After the end of a block.
    pub open spec fn after_end_block(self) -> TracerState {
        TracerState { block_log_index: 0, ..self }
    }

    /// After the start of a transaction: the call numbering starts again.
    pub open spec fn after_start_transaction(self, tx: TxData) -> TracerState {
        TracerState {
            active_tx: Some(tx),
            call_stack: seq![0u64],
            active_call_index: 0,
            call_index_counter: 0,
            ..self
        }
    }

    /// After the start of the active transaction has been printed.
    pub open spec fn after_record_start_transaction(self) -> TracerState {
        TracerState { active_tx_recorded: true, ..self }
    }

    /// After the end of a transaction.
    pub open spec fn after_end_transaction(self) -> TracerState {
        TracerState { active_tx: None, active_tx_recorded: false, ..self }
    }

    /// After a call is opened: it takes the next index and becomes the
    /// innermost open call.
    pub open spec fn after_start_call(self) -> TracerState {
        TracerState {
            call_index_counter: (self.call_index_counter + 1) as u64,
            active_call_index: (self.call_index_counter + 1) as u64,
            call_stack: self.call_stack.push((self.call_index_counter + 1) as u64),
            ..self
        }
    }

    /// After `k` calls are opened one inside the other.
    pub open spec fn after_start_calls(self, k: nat) -> TracerState
        decreases k,
    {
        if k == 0 {
            self
        } else {
            self.after_start_calls((k - 1) as nat).after_start_call()
        }
    }

    /// After the `k` innermost calls are closed, innermost first.
    pub open spec fn after_end_calls(self, k: nat) -> TracerState
        decreases k,
    {
        if k == 0 {
            self
        } else {
            self.after_end_calls((k - 1) as nat).after_end_call()
        }
    }

    /// After the innermost call is closed: the call around it is active again.
    pub open spec fn after_end_call(self) -> TracerState {
        TracerState {
            call_stack: self.call_stack.drop_last(),
            active_call_index: self.call_stack[self.call_stack.len() - 2],
            ..self
        }
    }
}

/// A tracer that prints nothing.
#[derive(Debug)]
pub struct NoOpTracer {}

/// A tracer that produces the Firehose line of every event.
#[derive(Debug)]
pub struct PrinterTracer {
    block_log_index: u64,
    total_ordering: u64,
    active_tx_data: Option<TxData>,
    active_tx_recorded: bool,
    call_index_counter: u64,
    active_call_stack: Vec<u64>,
    active_call_index: u64,
}

impl View for PrinterTracer {
    type V = TracerState;

    closed spec fn view(&self) -> TracerState {
        TracerState {
            block_log_index: self.block_log_index,
            total_ordering: self.total_ordering,
            active_tx: self.active_tx_data,
            active_tx_recorded: self.active_tx_recorded,
            call_index_counter: self.call_index_counter,
            call_stack: self.active_call_stack@,
            active_call_index: self.active_call_index,
        }
    }
}

impl Default for PrinterTracer {
    fn default() -> (t: PrinterTracer)
        ensures
            t@ == TracerState::initial(),
    {
        PrinterTracer {
            block_log_index: 0,
            total_ordering: 0,
            active_tx_data: None,
            active_tx_recorded: false,
            call_index_counter: 0,
            active_call_stack: Vec::new(),
            active_call_index: 0,
        }
    }
}

/// Appends `"."` or the decimal text of the number.
fn push_optional_decimal(line: &mut String, x: &Option<Uint256>)
    ensures
        final(line)@ == old(line)@ + optional_decimal(*x),
{
    match x {
        Some(v) => {
            let d = u256_to_decimal(v);
            line.append(d.as_str());
        },
        None => line.append("."),
    }
}

/// Appends the text of bytes as `Hex` shows them.
fn push_hex_display(line: &mut String, bytes: &[u8])
    ensures
        final(line)@ == old(line)@ + hex_display(bytes@),
{
    let h = Hex(bytes).to_string();
    line.append(h.as_str());
}

/// The line that announces a tracer.
pub(crate) fn init_text() -> (line: String)
    ensures
        line@ == init_line(),
{
    String::from_str("FIRE INIT 2.1 anvil 1.0")
}

/// The line that starts a block.
pub(crate) fn begin_block_text(block_number: u64) -> (line: String)
    ensures
        line@ == begin_block_line(block_number),
{
    let mut line = String::from_str("FIRE BEGIN_BLOCK ");
    push_decimal(&mut line, block_number);
    line
}

/// The line that finalizes a block.
pub(crate) fn finalize_block_text(block_number: u64) -> (line: String)
    ensures
        line@ == finalize_block_line(block_number),
{
    let mut line = String::from_str("FIRE FINALIZE_BLOCK ");
    push_decimal(&mut line, block_number);
    line
}

/// The line that ends a block.
pub(crate) fn end_block_text(block_number: &Uint256, block_size: usize, end_block_data: &str) -> (line: String)
    ensures
        line@ == end_block_line(*block_number, block_size, end_block_data@),
{
    let mut line = String::from_str("FIRE END_BLOCK ");
    let n = u256_to_decimal(block_number);
    line.append(n.as_str());
    push_char(&mut line, ' ');
    push_decimal(&mut line, block_size as u64);
    push_char(&mut line, ' ');
    line.append(end_block_data);
    line
}

/// The identity part of a transaction's opening line.
fn trx_identity(tx: &TxData, env: &TxEnv) -> (text: String)
    ensures
        text@ == trx_identity_text(*tx, *env),
{
    let mut text = h256_to_lower_hex(&tx.hash);
    push_char(&mut text, ' ');
    match &env.transact_to {
        TransactTo::Call(address) => {
            let to = h160_to_lower_hex(address);
            text.append(to.as_str());
        },
        TransactTo::Create => text.append("."),
    }
    push_char(&mut text, ' ');
    let value = u256_to_lower_hex(&env.value);
    text.append(value.as_str());
    push_char(&mut text, ' ');
    push_decimal(&mut text, tx.v);
    push_char(&mut text, ' ');
    push_hex_display(&mut text, &tx.r);
    push_char(&mut text, ' ');
    push_hex_display(&mut text, &tx.s);
    text
}

/// The execution part of a transaction's opening line.
fn trx_execution(env: &TxEnv) -> (text: String)
    ensures
        text@ == trx_execution_text(*env),
{
    let mut text = String::new();
    push_decimal(&mut text, env.gas_limit);
    proof {
        assert(text@ =~= decimal(env.gas_limit as nat));
    }
    push_char(&mut text, ' ');
    let gas_price = u256_to_lower_hex(&env.gas_price);
    text.append(gas_price.as_str());
    push_char(&mut text, ' ');
    let nonce: u64 = match env.nonce {
        Some(n) => n,
        None => 0,
    };
    push_decimal(&mut text, nonce);
    push_char(&mut text, ' ');
    push_hex_display(&mut text, env.data.as_slice());
    text.append(" 00");
    text
}

/// The fee part of a transaction's opening line.
fn trx_fee(tx: &TxData) -> (text: String)
    ensures
        text@ == trx_fee_text(*tx),
{
    let mut text = String::new();
    push_optional_decimal(&mut text, &tx.max_fee_per_gas);
    proof {
        assert(text@ =~= optional_decimal(tx.max_fee_per_gas));
    }
    push_char(&mut text, ' ');
    push_optional_decimal(&mut text, &tx.max_priority_fee_per_gas);
    push_char(&mut text, ' ');
    push_decimal(&mut text, tx.tx_type.as_u8() as u64);
    text.append(" 0");
    text
}

/// The line that opens a transaction.
fn begin_apply_trx(tx: &TxData, env: &TxEnv) -> (line: String)
    ensures
        line@ == begin_apply_trx_line(*tx, *env),
{
    let mut line = String::from_str("FIRE BEGIN_APPLY_TRX ");
    let identity = trx_identity(tx, env);
    line.append(identity.as_str());
    push_char(&mut line, ' ');
    let execution = trx_execution(env);
    line.append(execution.as_str());
    push_char(&mut line, ' ');
    let fee = trx_fee(tx);
    line.append(fee.as_str());
    line
}

impl PrinterTracer {
    /// A tracer with nothing active and every counter at zero.
    pub fn new() -> (t: PrinterTracer)
        ensures
            t@ == TracerState::initial(),
            t@.wf(),
    {
        PrinterTracer::default()
    }

    /// Whether a transaction is being executed.
    pub fn in_transaction(&self) -> (r: bool)
        ensures
            r == self@.in_transaction(),
    {
        self.active_tx_data.is_some()
    }

    /// Whether `start_call` may be called now.
    pub fn can_start_call(&self) -> (r: bool)
        ensures
            r == self@.can_start_call(),
    {
        self.active_tx_data.is_some() && self.call_index_counter < u64::MAX
    }

    /// Whether `end_call` may be called now.
    pub fn can_end_call(&self) -> (r: bool)
        ensures
            r == self@.can_end_call(),
    {
        self.active_tx_data.is_some() && self.active_call_stack.len() >= 2
    }

    /// A printing tracer is enabled.
    pub fn enabled(&self) -> (r: bool)
        ensures
            r,
    {
        true
    }

    /// The line that announces the tracer.
    pub fn record_init(&self) -> (line: String)
        ensures
            line@ == init_line(),
    {
        init_text()
    }

    /// Starts a block: resets the ordering counter.
    pub fn start_block(&mut self, block_number: u64) -> (line: String)
        ensures
            final(self)@ == old(self)@.after_block_boundary(),
            line@ == begin_block_line(block_number),
    {
        self.total_ordering = 0;
        begin_block_text(block_number)
    }

    /// Finalizes a block: resets the ordering counter.
    pub fn finalize_block(&mut self, block_number: u64) -> (line: String)
        ensures
            final(self)@ == old(self)@.after_block_boundary(),
            line@ == finalize_block_line(block_number),
    {
        self.total_ordering = 0;
        finalize_block_text(block_number)
    }

    /// Leaves the current block: resets the log index.
    fn exit_block(&mut self)
        ensures
            final(self)@ == old(self)@.after_end_block(),
    {
        self.block_log_index = 0;
    }

    /// Ends a block, given its number, the size of its RLP encoding and the
    /// JSON text of its end data (header, uncles, total difficulty).
    pub fn end_block(&mut self, block_number: &Uint256, block_size: usize, end_block_data: &str) -> (line: String)
        ensures
            final(self)@ == old(self)@.after_end_block(),
            line@ == end_block_line(*block_number, block_size, end_block_data@),
    {
        self.exit_block();
        end_block_text(block_number, block_size, end_block_data)
    }

    /// Starts executing a transaction: its data is kept, and the call
    /// numbering starts again with the transaction's own entry, 0.
    pub fn start_transaction(&mut self, tx: TxData)
        requires
            !old(self)@.in_transaction(),
        ensures
            final(self)@ == old(self)@.after_start_transaction(tx),
            old(self)@.wf() ==> final(self)@.wf(),
    {
        self.active_tx_data = Some(tx);
        let mut stack: Vec<u64> = Vec::new();
        stack.push(0);
        self.active_call_stack = stack;
        self.active_call_index = 0;
        self.call_index_counter = 0;
        proof {
            assert(self.active_call_stack@ =~= seq![0u64]);
        }
    }

    /// The two lines that open the active transaction (its data, then its
    /// sender), the first time they are asked for in the transaction;
    /// `None` afterwards.
    pub fn record_start_transaction(&mut self, tx: &TxEnv) -> (lines: Option<(String, String)>)
        requires
            old(self)@.in_transaction(),
        ensures
            old(self)@.active_tx_recorded ==> lines is None && final(self)@ == old(self)@,
            !old(self)@.active_tx_recorded ==> {
                &&& final(self)@ == old(self)@.after_record_start_transaction()
                &&& lines matches Some((data, from)) && data@ == begin_apply_trx_line(
                    old(self)@.active_tx.unwrap(),
                    *tx,
                ) && from@ == trx_from_line(tx.caller)
            },
            old(self)@.wf() ==> final(self)@.wf(),
    {
        if self.active_tx_recorded {
            return None;
        }
        let tx_data = match &self.active_tx_data {
            Some(d) => *d,
            None => {
                return None;
            },
        };
        let line = begin_apply_trx(&tx_data, tx);

        let mut from = String::from_str("FIRE TRX_FROM ");
        let caller = h160_to_lower_hex(&tx.caller);
        from.append(caller.as_str());

        self.active_tx_recorded = true;
        Some((line, from))
    }

    /// Ends the active transaction, given its cumulative gas used, its receipt
    /// and the JSON text of its log items (see `FirehoseLogItem`).
    pub fn end_transaction(
        &mut self,
        cumulative_gas_used: &Uint256,
        receipt: &TypedReceipt,
        logs_data: &str,
    ) -> (line: String)
        requires
            old(self)@.in_transaction(),
        ensures
            final(self)@ == old(self)@.after_end_transaction(),
            line@ == end_apply_trx_line(
                receipt.gas_used,
                *cumulative_gas_used,
                receipt.logs_bloom,
                logs_data@,
            ),
            old(self)@.wf() ==> final(self)@.wf(),
    {
        let mut line = String::from_str("FIRE END_APPLY_TRX ");
        let gas_used = u256_to_decimal(&receipt.gas_used);
        line.append(gas_used.as_str());
        line.append(" . ");
        let cumulative = u256_to_decimal(cumulative_gas_used);
        line.append(cumulative.as_str());
        push_char(&mut line, ' ');
        let bloom = bloom_to_lower_hex(&receipt.logs_bloom);
        line.append(bloom.as_str());
        line.append(" 0 ");
        line.append(logs_data);

        self.active_tx_data = None;
        self.active_tx_recorded = false;
        line
    }

    /// Opens a call: it takes the next call index and becomes the active call.
    pub fn start_call(&mut self, call_type: CallType) -> (line: String)
        requires
            old(self)@.can_start_call(),
        ensures
            final(self)@ == old(self)@.after_start_call(),
            line@ == evm_run_call_line(call_type, final(self)@.call_index_counter),
            old(self)@.wf() ==> final(self)@.wf(),
    {
        self.call_index_counter = self.call_index_counter + 1;
        self.active_call_index = self.call_index_counter;
        self.active_call_stack.push(self.call_index_counter);

        let mut line = String::from_str("FIRE EVM_RUN_CALL ");
        let name = call_type.to_string();
        line.append(name.as_str());
        push_char(&mut line, ' ');
        push_decimal(&mut line, self.call_index_counter);
        line.append(" 0");
        line
    }

    /// The parameters of the active call.
    pub fn record_call_params(
        &self,
        call_type: CallType,
        from: &[u8; 20],
        to: Option<[u8; 20]>,
        value: &Uint256,
        gas_limit: u64,
        input: &[u8],
    ) -> (line: String)
        requires
            self@.in_transaction(),
        ensures
            line@ == evm_param_line(
                call_type,
                self@.active_call_index,
                *from,
                to,
                *value,
                gas_limit,
                input@,
            ),
    {
        let mut line = String::from_str("FIRE EVM_PARAM ");
        let name = call_type.to_string();
        line.append(name.as_str());
        push_char(&mut line, ' ');
        push_decimal(&mut line, self.active_call_index);
        push_char(&mut line, ' ');
        let from_text = h160_to_lower_hex(from);
        line.append(from_text.as_str());
        push_char(&mut line, ' ');
        match to {
            Some(address) => {
                let to_text = h160_to_lower_hex(&address);
                line.append(to_text.as_str());
            },
            None => line.append("."),
        }
        push_char(&mut line, ' ');
        let value_text = BigInt(value).to_string();
        line.append(value_text.as_str());
        push_char(&mut line, ' ');
        push_decimal(&mut line, gas_limit);
        push_char(&mut line, ' ');
        push_hex_display(&mut line, input);
        line
    }

    /// Closes the innermost call: the call around it becomes active again.
    pub fn end_call(&mut self, gas_left: u64, return_value: &[u8]) -> (line: String)
        requires
            old(self)@.can_end_call(),
        ensures
            final(self)@ == old(self)@.after_end_call(),
            line@ == evm_end_call_line(old(self)@.call_stack.last(), gas_left, return_value@),
            old(self)@.wf() ==> final(self)@.wf(),
    {
        let previous_index = match self.active_call_stack.pop() {
            Some(index) => index,
            None => 0,
        };
        let last = self.active_call_stack.len() - 1;
        self.active_call_index = self.active_call_stack[last];

        let mut line = String::from_str("FIRE EVM_END_CALL ");
        push_decimal(&mut line, previous_index);
        push_char(&mut line, ' ');
        push_decimal(&mut line, gas_left);
        push_char(&mut line, ' ');
        push_hex_display(&mut line, return_value);
        line.append(" 0");
        line
    }

    /// A log emitted by the active call.
    pub fn record_log(&self, address: &[u8; 20], topics: &[[u8; 32]], data: &[u8]) -> (line: String)
        ensures
            line@ == add_log_line(self@.active_call_index, *address, topics@, data@),
    {
        let mut line = String::from_str("FIRE ADD_LOG ");
        push_decimal(&mut line, self.active_call_index);
        line.append(" 0 ");
        let address_text = h160_to_lower_hex(address);
        line.append(address_text.as_str());
        push_char(&mut line, ' ');
        let topics_joined = join_topics(topics);
        line.append(topics_joined.as_str());
        push_char(&mut line, ' ');
        push_hex_display(&mut line, data);
        line.append(" 0");
        line
    }
}

/// The topics of a log joined by commas: see `topics_text`.
fn join_topics(topics: &[[u8; 32]]) -> (text: String)
    ensures
        text@ == topics_text(topics@),
{
    let mut text = String::new();
    let mut i: usize = 0;
    while i < topics.len()
        invariant
            i <= topics.len(),
            text@ == topics_text(topics@.take(i as int)),
        decreases topics.len() - i,
    {
        proof {
            assert(topics@.take(i + 1).drop_last() =~= topics@.take(i as int));
        }
        if i > 0 {
            push_char(&mut text, ',');
        } else {
            proof {
                assert(text@ =~= Seq::<char>::empty());
            }
        }
        let topic = Hex(&topics[i]).to_string();
        text.append(topic.as_str());
        proof {
            let t = topics@.take(i + 1);
            if i == 0 {
                assert(t.len() == 1);
                assert(t[0] == topics@[0]);
            } else {
                assert(t.last() == topics@[i as int]);
            }
        }
        i = i + 1;
    }
    proof {
        assert(topics@.take(i as int) =~= topics@);
    }
    text
}

/// A tracer: one that prints nothing, or one that produces Firehose lines.
#[derive(Debug)]
pub enum Tracer {
    NoOp(NoOpTracer),
    Printer(PrinterTracer),
}

/// A printing tracer when tracing is enabled, else one that prints nothing.
pub fn new_tracer(enabled: bool) -> (t: Tracer)
    ensures
        enabled ==> t.printer_state() == Some(TracerState::initial()),
        !enabled ==> t is NoOp,
{
    if enabled {
        Tracer::Printer(PrinterTracer::new())
    } else {
        Tracer::NoOp(NoOpTracer {})
    }
}

impl Tracer {
    /// The state of a printing tracer; `None` for one that prints nothing.
    pub open spec fn printer_state(&self) -> Option<TracerState> {
        match self {
            Tracer::Printer(p) => Some(p@),
            Tracer::NoOp(_) => None,
        }
    }

    /// Whether the tracer prints.
    pub fn enabled(&self) -> (r: bool)
        ensures
            r == (self is Printer),
    {
        match self {
            Tracer::Printer(p) => p.enabled(),
            Tracer::NoOp(_) => false,
        }
    }

    /// Whether a transaction is being executed (never, for a tracer that
    /// prints nothing).
    pub fn in_transaction(&self) -> (r: bool)
        ensures
            r == (self.printer_state() matches Some(st) && st.in_transaction()),
    {
        match self {
            Tracer::Printer(p) => p.in_transaction(),
            Tracer::NoOp(_) => false,
        }
    }

    /// Whether `start_call` may be called now.
    pub fn can_start_call(&self) -> (r: bool)
        ensures
            r == (self.printer_state() matches Some(st) ==> st.can_start_call()),
    {
        match self {
            Tracer::Printer(p) => p.can_start_call(),
            Tracer::NoOp(_) => true,
        }
    }

    /// Whether `end_call` may be called now.
    pub fn can_end_call(&self) -> (r: bool)
        ensures
            r == (self.printer_state() matches Some(st) ==> st.can_end_call()),
    {
        match self {
            Tracer::Printer(p) => p.can_end_call(),
            Tracer::NoOp(_) => true,
        }
    }

    /// The line that announces the tracer.
    pub fn record_init(&self) -> (line: Option<String>)
        ensures
            self is NoOp ==> line is None,
            self is Printer ==> (line matches Some(l) && l@ == init_line()),
    {
        match self {
            Tracer::Printer(p) => Some(p.record_init()),
            Tracer::NoOp(_) => None,
        }
    }

    /// Starts a block.
    pub fn start_block(&mut self, block_number: u64) -> (line: Option<String>)
        ensures
            (*old(self)) is NoOp ==> line is None && (*final(self)) is NoOp,
            old(self).printer_state() matches Some(st) ==> {
                &&& final(self).printer_state() == Some(st.after_block_boundary())
                &&& line matches Some(l) && l@ == begin_block_line(block_number)
            },
    {
        match self {
            Tracer::Printer(p) => Some(p.start_block(block_number)),
            Tracer::NoOp(_) => None,
        }
    }

    /// Finalizes a block.
    pub fn finalize_block(&mut self, block_number: u64) -> (line: Option<String>)
        ensures
            (*old(self)) is NoOp ==> line is None && (*final(self)) is NoOp,
            old(self).printer_state() matches Some(st) ==> {
                &&& final(self).printer_state() == Some(st.after_block_boundary())
                &&& line matches Some(l) && l@ == finalize_block_line(block_number)
            },
    {
        match self {
            Tracer::Printer(p) => Some(p.finalize_block(block_number)),
            Tracer::NoOp(_) => None,
        }
    }

    /// Ends a block: see `PrinterTracer::end_block`.
    pub fn end_block(&mut self, block_number: &Uint256, block_size: usize, end_block_data: &str) -> (line: Option<String>)
        ensures
            (*old(self)) is NoOp ==> line is None && (*final(self)) is NoOp,
            old(self).printer_state() matches Some(st) ==> {
                &&& final(self).printer_state() == Some(st.after_end_block())
                &&& line matches Some(l) && l@ == end_block_line(
                    *block_number,
                    block_size,
                    end_block_data@,
                )
            },
    {
        match self {
            Tracer::Printer(p) => Some(p.end_block(block_number, block_size, end_block_data)),
            Tracer::NoOp(_) => None,
        }
    }

    /// Starts executing a transaction: see `PrinterTracer::start_transaction`.
    pub fn start_transaction(&mut self, tx: TxData)
        requires
            old(self).printer_state() matches Some(st) ==> !st.in_transaction(),
        ensures
            (*old(self)) is NoOp ==> (*final(self)) is NoOp,
            old(self).printer_state() matches Some(st) ==> final(self).printer_state() == Some(
                st.after_start_transaction(tx),
            ),
    {
        match self {
            Tracer::Printer(p) => p.start_transaction(tx),
            Tracer::NoOp(_) => {},
        }
    }

    /// The lines that open the active transaction, the first time only: see
    /// `PrinterTracer::record_start_transaction`.
    pub fn record_start_transaction(&mut self, tx: &TxEnv) -> (lines: Option<(String, String)>)
        requires
            old(self).printer_state() matches Some(st) ==> st.in_transaction(),
        ensures
            (*old(self)) is NoOp ==> lines is None && (*final(self)) is NoOp,
            old(self).printer_state() matches Some(st) ==> {
                &&& st.active_tx_recorded ==> lines is None && final(self).printer_state() == Some(
                    st,
                )
                &&& !st.active_tx_recorded ==> {
                    &&& final(self).printer_state() == Some(st.after_record_start_transaction())
                    &&& lines matches Some((data, from)) && data@ == begin_apply_trx_line(
                        st.active_tx.unwrap(),
                        *tx,
                    ) && from@ == trx_from_line(tx.caller)
                }
            },
    {
        match self {
            Tracer::Printer(p) => p.record_start_transaction(tx),
            Tracer::NoOp(_) => None,
        }
    }

    /// Ends the active transaction: see `PrinterTracer::end_transaction`.
    pub fn end_transaction(
        &mut self,
        cumulative_gas_used: &Uint256,
        receipt: &TypedReceipt,
        logs_data: &str,
    ) -> (line: Option<String>)
        requires
            old(self).printer_state() matches Some(st) ==> st.in_transaction(),
        ensures
            (*old(self)) is NoOp ==> line is None && (*final(self)) is NoOp,
            old(self).printer_state() matches Some(st) ==> {
                &&& final(self).printer_state() == Some(st.after_end_transaction())
                &&& line matches Some(l) && l@ == end_apply_trx_line(
                    receipt.gas_used,
                    *cumulative_gas_used,
                    receipt.logs_bloom,
                    logs_data@,
                )
            },
    {
        match self {
            Tracer::Printer(p) => Some(p.end_transaction(cumulative_gas_used, receipt, logs_data)),
            Tracer::NoOp(_) => None,
        }
    }

    /// Opens a call: see `PrinterTracer::start_call`.
    pub fn start_call(&mut self, call_type: CallType) -> (line: Option<String>)
        requires
            old(self).printer_state() matches Some(st) ==> st.can_start_call(),
        ensures
            (*old(self)) is NoOp ==> line is None && (*final(self)) is NoOp,
            old(self).printer_state() matches Some(st) ==> {
                &&& final(self).printer_state() == Some(st.after_start_call())
                &&& line matches Some(l) && l@ == evm_run_call_line(
                    call_type,
                    st.after_start_call().call_index_counter,
                )
            },
    {
        match self {
            Tracer::Printer(p) => Some(p.start_call(call_type)),
            Tracer::NoOp(_) => None,
        }
    }

    /// The parameters of the active call: see `PrinterTracer::record_call_params`.
    pub fn record_call_params(
        &self,
        call_type: CallType,
        from: &[u8; 20],
        to: Option<[u8; 20]>,
        value: &Uint256,
        gas_limit: u64,
        input: &[u8],
    ) -> (line: Option<String>)
        requires
            self.printer_state() matches Some(st) ==> st.in_transaction(),
        ensures
            self is NoOp ==> line is None,
            self.printer_state() matches Some(st) ==> (line matches Some(l) && l@ == evm_param_line(
                call_type,
                st.active_call_index,
                *from,
                to,
                *value,
                gas_limit,
                input@,
            )),
    {
        match self {
            Tracer::Printer(p) => Some(
                p.record_call_params(call_type, from, to, value, gas_limit, input),
            ),
            Tracer::NoOp(_) => None,
        }
    }

    /// Closes the innermost call: see `PrinterTracer::end_call`.
    pub fn end_call(&mut self, gas_left: u64, return_value: &[u8]) -> (line: Option<String>)
        requires
            old(self).printer_state() matches Some(st) ==> st.can_end_call(),
        ensures
            (*old(self)) is NoOp ==> line is None && (*final(self)) is NoOp,
            old(self).printer_state() matches Some(st) ==> {
                &&& final(self).printer_state() == Some(st.after_end_call())
                &&& line matches Some(l) && l@ == evm_end_call_line(
                    st.call_stack.last(),
                    gas_left,
                    return_value@,
                )
            },
    {
        match self {
            Tracer::Printer(p) => Some(p.end_call(gas_left, return_value)),
            Tracer::NoOp(_) => None,
        }
    }

    /// A log emitted by the active call: see `PrinterTracer::record_log`.
    pub fn record_log(&self, address: &[u8; 20], topics: &[[u8; 32]], data: &[u8]) -> (line: Option<String>)
        ensures
            self is NoOp ==> line is None,
            self.printer_state() matches Some(st) ==> (line matches Some(l) && l@ == add_log_line(
                st.active_call_index,
                *address,
                topics@,
                data@,
            )),
    {
        match self {
            Tracer::Printer(p) => Some(p.record_log(address, topics, data)),
            Tracer::NoOp(_) => None,
        }
    }
}

/// The hooks the EVM calls while executing, forwarding to a printing tracer.
pub struct Inspector<'a> {
    pub tracer: &'a mut PrinterTracer,
}

impl Tracer {
    /// The hooks of a printing tracer; a tracer that prints nothing has none.
    pub fn inspector(&mut self) -> (r: Option<Inspector<'_>>)
        ensures
            (*old(self)) is NoOp ==> r is None && (*final(self)) is NoOp,
            old(self).printer_state() matches Some(st) ==> (r matches Some(i) && i.tracer@ == st
                && final(self).printer_state() == Some(final(i.tracer)@)),
    {
        match self {
            Tracer::Printer(p) => Some(Inspector { tracer: p }),
            Tracer::NoOp(_) => None,
        }
    }
}

impl<'a> Inspector<'a> {
    /// A log emitted during execution: its line.
    pub fn log(&mut self, address: &[u8; 20], topics: &[[u8; 32]], data: &[u8]) -> (line: String)
        ensures
            final(self).tracer@ == old(self).tracer@,
            *final(final(self).tracer) == *final(old(self).tracer),
            line@ == add_log_line(old(self).tracer@.active_call_index, *address, topics@, data@),
    {
        self.tracer.record_log(address, topics, data)
    }

    /// A message call begins: the lines that open the transaction if they
    /// were not printed yet, then the opening of the call and its parameters.
    pub fn call(
        &mut self,
        tx: &TxEnv,
        scheme: &CallScheme,
        caller: &[u8; 20],
        contract: &[u8; 20],
        value: &Uint256,
        gas_limit: u64,
        input: &[u8],
    ) -> (lines: (Option<(String, String)>, String, String))
        requires
            old(self).tracer@.can_start_call(),
        ensures
            *final(final(self).tracer) == *final(old(self).tracer),
            ({
                let st = old(self).tracer@;
                let recorded = if st.active_tx_recorded {
                    st
                } else {
                    st.after_record_start_transaction()
                };
                let call_type = CallType::spec_from_call_scheme(*scheme);
                &&& final(self).tracer@ == recorded.after_start_call()
                &&& st.active_tx_recorded ==> lines.0 is None
                &&& !st.active_tx_recorded ==> (lines.0 matches Some((data, from)) && data@
                    == begin_apply_trx_line(st.active_tx.unwrap(), *tx) && from@ == trx_from_line(
                    tx.caller,
                ))
                &&& lines.1@ == evm_run_call_line(call_type, recorded.after_start_call().call_index_counter)
                &&& lines.2@ == evm_param_line(
                    call_type,
                    recorded.after_start_call().active_call_index,
                    *caller,
                    Some(*contract),
                    *value,
                    gas_limit,
                    input@,
                )
            }),
    {
        let start = self.tracer.record_start_transaction(tx);
        let run = self.tracer.start_call(CallType::from_call_scheme(scheme));
        let params = self.tracer.record_call_params(
            CallType::from_call_scheme(scheme),
            caller,
            Some(*contract),
            value,
            gas_limit,
            input,
        );
        (start, run, params)
    }

    /// A message call ends: the line that closes it.
    pub fn call_end(&mut self, remaining_gas: u64, out: &[u8]) -> (line: String)
        requires
            old(self).tracer@.can_end_call(),
        ensures
            *final(final(self).tracer) == *final(old(self).tracer),
            final(self).tracer@ == old(self).tracer@.after_end_call(),
            line@ == evm_end_call_line(old(self).tracer@.call_stack.last(), remaining_gas, out@),
    {
        self.tracer.end_call(remaining_gas, out)
    }

    /// A contract creation begins: the lines that open the transaction if
    /// they were not printed yet, then the opening of the call.
    pub fn create(&mut self, tx: &TxEnv, scheme: &CreateScheme) -> (lines: (
        Option<(String, String)>,
        String,
    ))
        requires
            old(self).tracer@.can_start_call(),
        ensures
            *final(final(self).tracer) == *final(old(self).tracer),
            ({
                let st = old(self).tracer@;
                let recorded = if st.active_tx_recorded {
                    st
                } else {
                    st.after_record_start_transaction()
                };
                &&& final(self).tracer@ == recorded.after_start_call()
                &&& st.active_tx_recorded ==> lines.0 is None
                &&& !st.active_tx_recorded ==> (lines.0 matches Some((data, from)) && data@
                    == begin_apply_trx_line(st.active_tx.unwrap(), *tx) && from@ == trx_from_line(
                    tx.caller,
                ))
                &&& lines.1@ == evm_run_call_line(
                    CallType::spec_from_create_scheme(*scheme),
                    recorded.after_start_call().call_index_counter,
                )
            }),
    {
        let start = self.tracer.record_start_transaction(tx);
        let run = self.tracer.start_call(CallType::from_create_scheme(scheme));
        (start, run)
    }

    /// A contract creation ends: the line that closes it.
    pub fn create_end(&mut self, remaining_gas: u64, out: &[u8]) -> (line: String)
        requires
            old(self).tracer@.can_end_call(),
        ensures
            *final(final(self).tracer) == *final(old(self).tracer),
            final(self).tracer@ == old(self).tracer@.after_end_call(),
            line@ == evm_end_call_line(old(self).tracer@.call_stack.last(), remaining_gas, out@),
    {
        self.tracer.end_call(remaining_gas, out)
    }
}

/// `Hex` prints `"."` exactly for no bytes or all-zero bytes; otherwise it
/// prints two digits per byte, from which the bytes can be read back.
pub proof fn law_hex_display(bytes: Seq<u8>)
    ensures
        (hex_display(bytes) == "."@) <==> (bytes.len() == 0 || all_zero(bytes)),
        !all_zero(bytes) ==> {
            &&& hex_display(bytes).len() == 2 * bytes.len()
            &&& hex_pairs_value(hex_display(bytes)) == bytes
        },
{
    reveal_strlit(".");
    law_hex_pairs_round_trip(bytes);
    if !(bytes.len() == 0 || all_zero(bytes)) {
        assert(hex_display(bytes).len() >= 2);
    }
}

/// `BigInt` prints `"."` exactly for zero; any other number it prints as the
/// 64 hexadecimal digits of its 32 big-endian bytes.
pub proof fn law_big_int_display(x: Uint256)
    ensures
        (big_int_display(x) == "."@) <==> (x@ == 0),
        x@ != 0 ==> {
            &&& big_int_display(x) == hex_pairs(u256_be_bytes(x))
            &&& big_int_display(x).len() == 64
            &&& hex_pairs_value(big_int_display(x)) == u256_be_bytes(x)
        },
{
    reveal_strlit(".");
    let b = u256_be_bytes(x);
    law_hex_pairs_round_trip(b);
    if x@ != 0 {
        lemma_u64_be_bytes_zero(x.limbs[0]);
        lemma_u64_be_bytes_zero(x.limbs[1]);
        lemma_u64_be_bytes_zero(x.limbs[2]);
        lemma_u64_be_bytes_zero(x.limbs[3]);
        assert(!all_zero(b)) by {
            if x.limbs[3] != 0 {
                let i = choose|i: int| 0 <= i < 8 && #[trigger] u64_be_bytes(x.limbs[3])[i] != 0;
                assert(b[i] == u64_be_bytes(x.limbs[3])[i]);
            } else if x.limbs[2] != 0 {
                let i = choose|i: int| 0 <= i < 8 && #[trigger] u64_be_bytes(x.limbs[2])[i] != 0;
                assert(b[8 + i] == u64_be_bytes(x.limbs[2])[i]);
            } else if x.limbs[1] != 0 {
                let i = choose|i: int| 0 <= i < 8 && #[trigger] u64_be_bytes(x.limbs[1])[i] != 0;
                assert(b[16 + i] == u64_be_bytes(x.limbs[1])[i]);
            } else {
                let i = choose|i: int| 0 <= i < 8 && #[trigger] u64_be_bytes(x.limbs[0])[i] != 0;
                assert(b[24 + i] == u64_be_bytes(x.limbs[0])[i]);
            }
        }
        assert(hex_display(b) == hex_pairs(b));
    }
}

/// A new tracer keeps the invariant, and every event keeps it when it is
/// allowed.
pub proof fn law_events_keep_invariant(st: TracerState, tx: TxData)
    ensures
        TracerState::initial().wf(),
        st.wf() ==> st.after_block_boundary().wf(),
        st.wf() ==> st.after_end_block().wf(),
        st.wf() && !st.in_transaction() ==> st.after_start_transaction(tx).wf(),
        st.wf() && st.in_transaction() ==> st.after_record_start_transaction().wf(),
        st.wf() ==> st.after_end_transaction().wf(),
        st.wf() && st.can_start_call() ==> st.after_start_call().wf(),
        st.wf() && st.can_end_call() ==> st.after_end_call().wf(),
{
    let s1 = st.after_start_transaction(tx);
    assert(s1.call_stack =~= seq![0u64]);
    if st.wf() && st.can_end_call() {
        let s2 = st.after_end_call();
        assert(s2.call_stack.last() == st.call_stack[st.call_stack.len() - 2]);
    }
}

/// Closing a call right after opening it gives back the open calls and the
/// active call as they were, and the closing reports the index the opening
/// gave: the call counter alone has moved on.
pub proof fn law_end_call_closes_start_call(st: TracerState)
    requires
        st.wf(),
        st.can_start_call(),
    ensures
        st.after_start_call().can_end_call(),
        st.after_start_call().call_stack.last() == st.after_start_call().call_index_counter,
        st.after_start_call().after_end_call() == (TracerState {
            call_index_counter: (st.call_index_counter + 1) as u64,
            ..st
        }),
{
    let s1 = st.after_start_call();
    assert(s1.call_stack.drop_last() =~= st.call_stack);
    assert(s1.call_stack[s1.call_stack.len() - 2] == st.call_stack.last());
}

/// A newly opened call gets an index that no call before it in the
/// transaction had: it is above every open call and above the counter.
pub proof fn law_start_call_index_is_fresh(st: TracerState)
    requires
        st.wf(),
        st.can_start_call(),
    ensures
        st.after_start_call().active_call_index > st.call_index_counter,
        forall|i: int|
            0 <= i < st.call_stack.len() ==> #[trigger] st.call_stack[i]
                < st.after_start_call().active_call_index,
{
}

/// The two lines that open a transaction are printed once per transaction:
/// once a transaction has ended, the next one starts with its opening not
/// yet printed, and once printed it stays printed until the transaction
/// ends, whatever calls and logs come in between.
pub proof fn law_transaction_opening_printed_once(st: TracerState, tx: TxData)
    ensures
        !st.after_end_transaction().after_start_transaction(tx).active_tx_recorded,
        !TracerState::initial().after_start_transaction(tx).active_tx_recorded,
        st.after_record_start_transaction().active_tx_recorded,
        st.active_tx_recorded ==> {
            &&& st.after_start_call().active_tx_recorded
            &&& st.after_end_call().active_tx_recorded
            &&& st.after_block_boundary().active_tx_recorded
            &&& st.after_end_block().active_tx_recorded
        },
{
}

/// What opening `k` nested calls does: they take the next `k` indexes, in
/// order, and the last is active.
proof fn lemma_after_start_calls(st: TracerState, k: nat)
    requires
        st.call_index_counter + k <= u64::MAX,
    ensures
        st.after_start_calls(k) == (TracerState {
            call_index_counter: (st.call_index_counter + k) as u64,
            call_stack: st.call_stack + Seq::new(k, |i: int| (st.call_index_counter + 1 + i) as u64),
            active_call_index: if k == 0 {
                st.active_call_index
            } else {
                (st.call_index_counter + k) as u64
            },
            ..st
        }),
    decreases k,
{
    if k > 0 {
        lemma_after_start_calls(st, (k - 1) as nat);
        let prev = st.after_start_calls((k - 1) as nat);
        assert(prev.call_stack.push((prev.call_index_counter + 1) as u64) =~= st.call_stack
            + Seq::new(k, |i: int| (st.call_index_counter + 1 + i) as u64));
    } else {
        assert(st.call_stack + Seq::new(0, |i: int| (st.call_index_counter + 1 + i) as u64)
            =~= st.call_stack);
    }
}

/// What closing the `j` innermost calls does: they leave the stack, and the
/// call under them is active.
proof fn lemma_after_end_calls(t: TracerState, j: nat)
    requires
        t.call_stack.len() > j,
    ensures
        t.after_end_calls(j) == (TracerState {
            call_stack: t.call_stack.take(t.call_stack.len() - j),
            active_call_index: if j == 0 {
                t.active_call_index
            } else {
                t.call_stack[t.call_stack.len() - j - 1]
            },
            ..t
        }),
    decreases j,
{
    if j > 0 {
        lemma_after_end_calls(t, (j - 1) as nat);
        let prev = t.after_end_calls((j - 1) as nat);
        assert(prev.call_stack.drop_last() =~= t.call_stack.take(t.call_stack.len() - j));
    } else {
        assert(t.call_stack.take(t.call_stack.len() as int) =~= t.call_stack);
    }
}

/// Calls nest: after `k` calls are opened one inside the other, closing
/// `j` of them reports, at each closing, the index of the most recent call
/// still open (the openings in reverse order), and closing all `k` gives
/// back the open calls and the active call as they were before.
pub proof fn law_nested_calls_close_in_reverse(st: TracerState, k: nat)
    requires
        st.wf(),
        st.in_transaction(),
        st.call_index_counter + k <= u64::MAX,
    ensures
        forall|j: nat|
            #![trigger st.after_start_calls(k).after_end_calls(j)]
            j < k ==> st.after_start_calls(k).after_end_calls(j).can_end_call()
                && st.after_start_calls(k).after_end_calls(j).call_stack.last()
                == st.call_index_counter + k - j,
        st.after_start_calls(k).after_end_calls(k) == (TracerState {
            call_index_counter: (st.call_index_counter + k) as u64,
            ..st
        }),
{
    lemma_after_start_calls(st, k);
    let t = st.after_start_calls(k);
    let added = Seq::new(k, |i: int| (st.call_index_counter + 1 + i) as u64);
    assert(t.call_stack.len() == st.call_stack.len() + k);
    assert forall|j: nat| #![trigger st.after_start_calls(k).after_end_calls(j)]
        j < k implies st.after_start_calls(k).after_end_calls(j).can_end_call()
        && st.after_start_calls(k).after_end_calls(j).call_stack.last()
        == st.call_index_counter + k - j by {
        lemma_after_end_calls(t, j);
        let n = t.call_stack.len() - j;
        assert(t.after_end_calls(j).call_stack.last() == t.call_stack[n - 1]);
        assert(t.call_stack[n - 1] == added[(k - j - 1) as int]);
    }
    lemma_after_end_calls(t, k);
    assert(t.call_stack.take(t.call_stack.len() - k) =~= st.call_stack);
    if k > 0 {
        assert(t.call_stack[t.call_stack.len() - k - 1] == st.call_stack.last());
    }
}

/// An event that can happen inside a transaction without ending it (the
/// queries `record_call_params` and `record_log` change no state and are
/// left out).
#[derive(Clone, Copy, Debug, PartialEq, Eq, Structural)]
pub enum TxEvent {
    StartCall,
    EndCall,
    RecordStartTransaction,
    BlockBoundary,
    EndBlock,
}

/// Whether an event is allowed in a state (the event's method would not
/// panic there).
pub open spec fn event_allowed(st: TracerState, e: TxEvent) -> bool {
    match e {
        TxEvent::StartCall => st.can_start_call(),
        TxEvent::EndCall => st.can_end_call(),
        TxEvent::RecordStartTransaction => st.in_transaction(),
        TxEvent::BlockBoundary => true,
        TxEvent::EndBlock => true,
    }
}

/// The state after one event.
pub open spec fn after_event(st: TracerState, e: TxEvent) -> TracerState {
    match e {
        TxEvent::StartCall => st.after_start_call(),
        TxEvent::EndCall => st.after_end_call(),
        TxEvent::RecordStartTransaction => if st.active_tx_recorded {
            st
        } else {
            st.after_record_start_transaction()
        },
        TxEvent::BlockBoundary => st.after_block_boundary(),
        TxEvent::EndBlock => st.after_end_block(),
    }
}

/// The state after a sequence of events, in order.
pub open spec fn after_events(st: TracerState, es: Seq<TxEvent>) -> TracerState
    decreases es.len(),
{
    if es.len() == 0 {
        st
    } else {
        after_event(after_events(st, es.drop_last()), es.last())
    }
}

/// Whether every event of a sequence is allowed in the state it happens in.
pub open spec fn events_allowed(st: TracerState, es: Seq<TxEvent>) -> bool {
    forall|i: int|
        0 <= i < es.len() ==> event_allowed(after_events(st, es.take(i)), #[trigger] es[i])
}

/// How many calls a sequence of events opens.
pub open spec fn count_start_calls(es: Seq<TxEvent>) -> nat
    decreases es.len(),
{
    if es.len() == 0 {
        0
    } else {
        count_start_calls(es.drop_last()) + if es.last() == TxEvent::StartCall {
            1nat
        } else {
            0nat
        }
    }
}

/// Events keep the transaction active and count the calls they open.
proof fn lemma_after_events_count(s: TracerState, es: Seq<TxEvent>)
    requires
        s.in_transaction(),
        s.call_index_counter == 0,
        events_allowed(s, es),
    ensures
        after_events(s, es).in_transaction(),
        after_events(s, es).call_index_counter == count_start_calls(es),
        after_events(s, es).active_tx == s.active_tx,
    decreases es.len(),
{
    if es.len() > 0 {
        let prefix = es.drop_last();
        assert forall|i: int| 0 <= i < prefix.len() implies event_allowed(
            after_events(s, prefix.take(i)),
            #[trigger] prefix[i],
        ) by {
            assert(prefix.take(i) =~= es.take(i));
            assert(prefix[i] == es[i]);
        }
        lemma_after_events_count(s, prefix);
        assert(es.take(es.len() - 1) =~= prefix);
        assert(event_allowed(after_events(s, es.take(es.len() - 1)), es[es.len() - 1]));
    }
}

/// Calls are numbered 1, 2, 3, ... within a transaction: after a
/// transaction starts, whatever allowed events follow, the n-th call opened
/// gets index n (which its `EVM_RUN_CALL` line prints and which becomes the
/// active call), and the counter always equals the number of calls opened.
pub proof fn law_calls_numbered_in_order(st: TracerState, tx: TxData, es: Seq<TxEvent>)
    requires
        events_allowed(st.after_start_transaction(tx), es),
    ensures
        after_events(st.after_start_transaction(tx), es).call_index_counter == count_start_calls(
            es,
        ),
        forall|i: int|
            0 <= i < es.len() && #[trigger] es[i] == TxEvent::StartCall ==> {
                let opened = after_events(st.after_start_transaction(tx), es.take(i + 1));
                &&& opened.call_index_counter == count_start_calls(es.take(i + 1))
                &&& opened.active_call_index == count_start_calls(es.take(i + 1))
                &&& count_start_calls(es.take(i + 1)) == count_start_calls(es.take(i)) + 1
            },
{
    let s = st.after_start_transaction(tx);
    lemma_after_events_count(s, es);
    assert forall|i: int|
        0 <= i < es.len() && #[trigger] es[i] == TxEvent::StartCall implies {
            let opened = after_events(s, es.take(i + 1));
            &&& opened.call_index_counter == count_start_calls(es.take(i + 1))
            &&& opened.active_call_index == count_start_calls(es.take(i + 1))
            &&& count_start_calls(es.take(i + 1)) == count_start_calls(es.take(i)) + 1
        } by {
        let p = es.take(i + 1);
        assert forall|k: int| 0 <= k < p.len() implies event_allowed(
            after_events(s, p.take(k)),
            #[trigger] p[k],
        ) by {
            assert(p.take(k) =~= es.take(k));
        }
        assert(p.drop_last() =~= es.take(i));
        assert(p.last() == TxEvent::StartCall);
        lemma_after_events_count(s, p);
        let q = es.take(i);
        assert forall|k: int| 0 <= k < q.len() implies event_allowed(
            after_events(s, q.take(k)),
            #[trigger] q[k],
        ) by {
            assert(q.take(k) =~= es.take(k));
        }
        lemma_after_events_count(s, q);
    }
}

} // verus!
