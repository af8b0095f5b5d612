//! The method surface of the compatibility layer.
//!
//! `Net` and `EthApi` hold the configuration of a node and decide what each
//! call answers. What a call needs from the chain, the state, the network or
//! the pool is read by the caller and handed in as plain values; reads that
//! name a block are routed through the block resolver, and raw transactions
//! through the decoder and the submission.

use vstd::prelude::*;
use vstd::string::*;
use crate::block::{resolve, resolved, route, routed, BlockReference, ChainInfo, ReadTarget, StateHandle};
use crate::error::{internal_err, RpcError, INTERNAL_ERROR_CODE};
use crate::nonce::{next_nonce, reconciled};
use crate::pool::{first_tags, PoolReadyEntry};
use crate::primitives::{H160, H256, U256};
use crate::submit::{Submission, SubmissionEvent, SubmitError};
use crate::decoder::{decoding, DecodeError};
use crate::text::{radix_text, to_decimal, to_prefixed_hex};

verus! {

/// The number of connected peers, as a number or as hexadecimal text.
#[derive(Clone, Debug, PartialEq, Eq)]
pub enum PeerCount {
    U32(u32),
    Hex(String),
}

/// How far a node that is catching up has come.
#[derive(Clone, Copy, Debug, PartialEq, Eq)]
pub struct SyncInfo {
    pub starting_block: U256,
    pub current_block: U256,
    /// The best block that any peer has. The network does not report it, so
    /// this holds the node's own best block: an approximation from below.
    pub highest_block: U256,
    pub warp_chunks_amount: Option<U256>,
    pub warp_chunks_processed: Option<U256>,
}

/// Whether a node is catching up with the chain.
#[derive(Clone, Copy, Debug, PartialEq, Eq)]
pub enum SyncStatus {
    Info(SyncInfo),
    NotSyncing,
}

/// A proof-of-work package. This chain has none to offer: every field of the
/// package it hands out is zero.
#[derive(Clone, Copy, Debug, PartialEq, Eq)]
pub struct Work {
    pub pow_hash: H256,
    pub seed_hash: H256,
    pub target: H256,
    pub number: Option<u64>,
}

/// The methods of the protocol that this layer answers with an error.
#[derive(Clone, Copy, Debug, PartialEq, Eq)]
pub enum Unsupported {
    Author,
    BlockByHash,
    BlockByNumber,
    BlockTransactionCountByHash,
    BlockTransactionCountByNumber,
    TransactionByHash,
    TransactionByBlockHashAndIndex,
    TransactionByBlockNumberAndIndex,
    TransactionReceipt,
    CodeAt,
    Call,
    EstimateGas,
    FeeHistory,
    MaxPriorityFeePerGas,
    SendTransaction,
}

impl Unsupported {
    /// The message of the error that the method is answered with.
    pub open spec fn spec_message(self) -> Seq<char> {
        match self {
            Unsupported::Author => "author not supported"@,
            Unsupported::BlockByHash => "block_by_hash not supported"@,
            Unsupported::BlockByNumber => "block_by_number not supported"@,
            Unsupported::BlockTransactionCountByHash => "block_transaction_count_by_hash not supported"@,
            Unsupported::BlockTransactionCountByNumber => "block_transaction_count_by_number not supported"@,
            Unsupported::TransactionByHash => "transaction_by_hash not supported"@,
            Unsupported::TransactionByBlockHashAndIndex => "transaction_by_block_hash_and_index not supported"@,
            Unsupported::TransactionByBlockNumberAndIndex => "transaction_by_block_number_and_index not supported"@,
            Unsupported::TransactionReceipt => "transaction_receipt not supported"@,
            Unsupported::CodeAt => "code_at not supported"@,
            Unsupported::Call => "call not supported"@,
            Unsupported::EstimateGas => "estimate_gas not supported"@,
            Unsupported::FeeHistory => "fee_history not supported"@,
            Unsupported::MaxPriorityFeePerGas => "max_priority_fee_per_gas not supported"@,
            Unsupported::SendTransaction => "send_transaction not supported"@,
        }
    }

    /// The message of the error that the method is answered with.
    pub fn message(self) -> (r: &'static str)
        ensures
            r@ == self.spec_message(),
    {
        match self {
            Unsupported::Author => "author not supported",
            Unsupported::BlockByHash => "block_by_hash not supported",
            Unsupported::BlockByNumber => "block_by_number not supported",
            Unsupported::BlockTransactionCountByHash => "block_transaction_count_by_hash not supported",
            Unsupported::BlockTransactionCountByNumber => "block_transaction_count_by_number not supported",
            Unsupported::TransactionByHash => "transaction_by_hash not supported",
            Unsupported::TransactionByBlockHashAndIndex => "transaction_by_block_hash_and_index not supported",
            Unsupported::TransactionByBlockNumberAndIndex => "transaction_by_block_number_and_index not supported",
            Unsupported::TransactionReceipt => "transaction_receipt not supported",
            Unsupported::CodeAt => "code_at not supported",
            Unsupported::Call => "call not supported",
            Unsupported::EstimateGas => "estimate_gas not supported",
            Unsupported::FeeHistory => "fee_history not supported",
            Unsupported::MaxPriorityFeePerGas => "max_priority_fee_per_gas not supported",
            Unsupported::SendTransaction => "send_transaction not supported",
        }
    }
}

/// Whether `error` is an internal error with this message and no payload.
pub open spec fn is_internal(error: RpcError, message: Seq<char>) -> bool {
    &&& error.code == INTERNAL_ERROR_CODE
    &&& error.message@ == message
    &&& error.data is None
}

/// The message of a state read that failed with `detail`.
pub open spec fn read_failure(detail: Seq<char>) -> Seq<char> {
    "fetch runtime chain id failed: "@ + detail
}

/// The message of a read of the finalized nonce under the pending state that
/// failed with `detail`.
pub open spec fn nonce_failure(detail: Seq<char>) -> Seq<char> {
    "fetch runtime account basic failed: "@ + detail
}

/// The message that a failed submission is reported with. The pool's reason
/// for a refusal is reported as the pool gave it.
pub open spec fn submit_failure(error: SubmitError) -> Seq<char> {
    match error {
        SubmitError::Decode(DecodeError::Empty) => "transaction data is empty"@,
        SubmitError::Decode(DecodeError::Malformed) => "decode transaction failed"@,
        SubmitError::BackendUnavailable => "cannot access runtime api"@,
        SubmitError::UnsupportedVersion => "ConvertTransactionRuntimeApi version not supported"@,
        SubmitError::UnsupportedOnBackend => "This runtime not support eth transactions v2"@,
        SubmitError::NoConverterAvailable => "No TransactionConverter is provided and the runtime api ConvertTransactionRuntimeApi is not found"@,
        SubmitError::PoolRejection(reason) => reason@,
    }
}

/// Builds the internal error whose message is `prefix` followed by `detail`.
fn failure(prefix: &str, detail: &str) -> (r: RpcError)
    ensures
        is_internal(r, prefix@ + detail@),
{
    let mut message = prefix.to_owned();
    message.append(detail);
    internal_err(message.as_str())
}

/// Answers a state read: the value that was read, or an internal error that
/// quotes what the state reported.
fn answer_read<V>(answer: Result<V, String>) -> (r: Result<V, RpcError>)
    ensures
        match answer {
            Ok(value) => r == Ok::<V, RpcError>(value),
            Err(detail) => (r matches Err(error) && is_internal(error, read_failure(detail@))),
        },
{
    match answer {
        Ok(value) => Ok(value),
        Err(detail) => Err(failure("fetch runtime chain id failed: ", detail.as_str())),
    }
}

/// The network side of the protocol.
#[derive(Clone, Copy, Debug, PartialEq, Eq)]
pub struct Net {
    peer_count_as_hex: bool,
}

impl Net {
    /// Whether the peer count is reported as hexadecimal text.
    pub closed spec fn spec_peer_count_as_hex(&self) -> bool {
        self.peer_count_as_hex
    }

    pub fn new(peer_count_as_hex: bool) -> (r: Net)
        ensures
            r.spec_peer_count_as_hex() == peer_count_as_hex,
    {
        Net { peer_count_as_hex }
    }

    /// The network version: the chain id in decimal. `chain_id` is what the
    /// runtime answered at the best block, or nothing where asking failed.
    pub fn version(&self, chain_id: Option<u64>) -> (r: Result<String, RpcError>)
        ensures
            match chain_id {
                Some(id) => r is Ok && r.unwrap()@ == radix_text(id as nat, 10),
                None => (r matches Err(error) && is_internal(error, "fetch runtime chain id failed"@)),
            },
    {
        match chain_id {
            Some(id) => Ok(to_decimal(id)),
            None => Err(internal_err("fetch runtime chain id failed")),
        }
    }

    /// The number of connected peers: as `0x` and hexadecimal digits where the
    /// node is configured so, and as a number cut to 32 bits otherwise.
    pub fn peer_count(&self, connected: usize) -> (r: Result<PeerCount, RpcError>)
        ensures
            r is Ok,
            self.spec_peer_count_as_hex() ==> (r.unwrap() matches PeerCount::Hex(text) && text@
                == seq!['0', 'x'] + radix_text(connected as nat, 16)),
            !self.spec_peer_count_as_hex() ==> (r.unwrap() matches PeerCount::U32(count) && count
                == connected as int % 0x1_0000_0000),
    {
        if self.peer_count_as_hex {
            Ok(PeerCount::Hex(to_prefixed_hex(connected as u64)))
        } else {
            Ok(PeerCount::U32((connected as u64 % 0x1_0000_0000) as u32))
        }
    }

    /// A node that answers is listening.
    pub fn is_listening(&self) -> (r: Result<bool, RpcError>)
        ensures
            r == Ok::<bool, RpcError>(true),
    {
        Ok(true)
    }
}

/// The chain side of the protocol.
#[derive(Clone, Copy, Debug, PartialEq, Eq)]
pub struct EthApi {
    is_authority: bool,
    has_converter: bool,
}

impl EthApi {
    /// Whether the node authors blocks.
    pub closed spec fn spec_is_authority(&self) -> bool {
        self.is_authority
    }

    /// Whether the node was configured with a transaction converter of its
    /// own.
    pub closed spec fn spec_has_converter(&self) -> bool {
        self.has_converter
    }

    pub fn new(is_authority: bool, has_converter: bool) -> (r: EthApi)
        ensures
            r.spec_is_authority() == is_authority,
            r.spec_has_converter() == has_converter,
    {
        EthApi { is_authority, has_converter }
    }

    /// The protocol version.
    pub fn protocol_version(&self) -> (r: Result<u64, RpcError>)
        ensures
            r == Ok::<u64, RpcError>(1),
    {
        Ok(1)
    }

    /// The sync status: nothing to report unless the network is in a major
    /// sync, and otherwise progress from block zero to the node's best block.
    pub fn syncing(&self, is_major_syncing: bool, best_number: u128) -> (r: Result<
        SyncStatus,
        RpcError,
    >)
        ensures
            r is Ok,
            !is_major_syncing ==> r.unwrap() == SyncStatus::NotSyncing,
            is_major_syncing ==> (r.unwrap() matches SyncStatus::Info(info)
                && info.starting_block@ == 0 && info.current_block@ == best_number
                && info.highest_block@ == best_number && info.warp_chunks_amount is None
                && info.warp_chunks_processed is None),
    {
        if is_major_syncing {
            let block_number = U256::from_u128(best_number);
            Ok(
                SyncStatus::Info(
                    SyncInfo {
                        starting_block: U256::zero(),
                        current_block: block_number,
                        highest_block: block_number,
                        warp_chunks_amount: None,
                        warp_chunks_processed: None,
                    },
                ),
            )
        } else {
            Ok(SyncStatus::NotSyncing)
        }
    }

    /// The error that an unsupported method is answered with.
    pub fn unsupported(&self, method: Unsupported) -> (r: RpcError)
        ensures
            is_internal(r, method.spec_message()),
    {
        internal_err(method.message())
    }

    /// The accounts that the node manages: none.
    pub fn accounts(&self) -> (r: Result<Vec<H160>, RpcError>)
        ensures
            r is Ok,
            r.unwrap()@.len() == 0,
    {
        Ok(Vec::new())
    }

    /// The number of the best block.
    pub fn block_number(&self, best_number: u128) -> (r: Result<U256, RpcError>)
        ensures
            r is Ok,
            r.unwrap()@ == best_number,
    {
        Ok(U256::from_u128(best_number))
    }

    /// The chain id that transactions are signed for. `answer` is what the
    /// runtime answered at the best block, or what it reported instead.
    pub fn chain_id(&self, answer: Result<u64, String>) -> (r: Result<Option<u64>, RpcError>)
        ensures
            match answer {
                Ok(id) => r == Ok::<Option<u64>, RpcError>(Some(id)),
                Err(detail) => (r matches Err(error) && is_internal(error, read_failure(detail@))),
            },
    {
        match answer {
            Ok(id) => Ok(Some(id)),
            Err(detail) => Err(failure("fetch runtime chain id failed: ", detail.as_str())),
        }
    }

    /// The number of uncles of any block: zero.
    pub fn block_uncles_count(&self) -> (r: Result<U256, RpcError>)
        ensures
            r is Ok,
            r.unwrap()@ == 0,
    {
        Ok(U256::zero())
    }

    /// The uncle at any position of any block: none.
    pub fn uncle<B>(&self) -> (r: Result<Option<B>, RpcError>)
        ensures
            r == Ok::<Option<B>, RpcError>(None),
    {
        Ok(None)
    }

    /// Where a read that names `reference` is answered: `found` is the
    /// chain's answer to the lookup that the reference needs.
    pub fn read_target(
        &self,
        reference: &Option<BlockReference>,
        info: &ChainInfo,
        found: Option<H256>,
    ) -> (r: ReadTarget)
        ensures
            r == routed(resolved(*reference, *info, found), *info),
    {
        route(resolve(reference, info, found), info)
    }

    /// Where a read is answered that is known to ask for the pending state,
    /// or known not to: the best finalized state, or the pending state on top
    /// of it.
    pub fn deferrable_runtime_api(&self, pending: bool, info: &ChainInfo) -> (r: ReadTarget)
        ensures
            r == if pending {
                ReadTarget::Pending { base: StateHandle { block: info.best_hash } }
            } else {
                ReadTarget::Finalized(StateHandle { block: info.best_hash })
            },
    {
        let best = StateHandle { block: info.best_hash };
        if pending {
            ReadTarget::Pending { base: best }
        } else {
            ReadTarget::Finalized(best)
        }
    }

    /// Runs `execution` on `api` and hands back what it returns.
    pub fn run_with_api<A, Out, F: Fn(A) -> Out>(api: A, execution: F) -> (out: Out)
        requires
            execution.requires((api,)),
        ensures
            execution.ensures((api,), out),
    {
        execution(api)
    }

    /// The balance of an account. `answer` is what the state at the read's
    /// target answered.
    pub fn balance(&self, answer: Result<U256, String>) -> (r: Result<U256, RpcError>)
        ensures
            match answer {
                Ok(value) => r == Ok::<U256, RpcError>(value),
                Err(detail) => (r matches Err(error) && is_internal(error, read_failure(detail@))),
            },
    {
        answer_read(answer)
    }

    /// The content of a storage slot. `answer` is what the state at the
    /// read's target answered.
    pub fn storage_at(&self, answer: Result<H256, String>) -> (r: Result<H256, RpcError>)
        ensures
            match answer {
                Ok(value) => r == Ok::<H256, RpcError>(value),
                Err(detail) => (r matches Err(error) && is_internal(error, read_failure(detail@))),
            },
    {
        answer_read(answer)
    }

    /// The number of transactions that `account` has sent.
    ///
    /// `nonce` is the account's nonce in the finalized state of the read's
    /// target. Against a finalized state that nonce is the answer. Against the
    /// pending state the answer is the next usable nonce: the finalized nonce
    /// walked along `ready`, the pool's ready entries in the pool's order.
    pub fn transaction_count(
        &self,
        account: &H160,
        target: &ReadTarget,
        nonce: Result<U256, String>,
        ready: &Vec<PoolReadyEntry>,
    ) -> (r: Result<U256, RpcError>)
        ensures
            match (*target, nonce) {
                (ReadTarget::Finalized(_), Ok(value)) => r == Ok::<U256, RpcError>(value),
                (ReadTarget::Finalized(_), Err(detail)) => (r matches Err(error) && is_internal(error, read_failure(detail@),
                )),
                (ReadTarget::Pending { .. }, Ok(value)) => r is Ok && r.unwrap()@ == reconciled(
                    account@,
                    value@,
                    first_tags(ready@),
                ),
                (ReadTarget::Pending { .. }, Err(detail)) => (r matches Err(error) && is_internal(error, nonce_failure(detail@),
                )),
            },
    {
        match target {
            ReadTarget::Finalized(_) => answer_read(nonce),
            ReadTarget::Pending { .. } => match nonce {
                Ok(value) => Ok(next_nonce(account, value, ready)),
                Err(detail) => Err(
                    failure("fetch runtime account basic failed: ", detail.as_str()),
                ),
            },
        }
    }

    /// The gas price: zero.
    pub fn gas_price(&self) -> (r: Result<U256, RpcError>)
        ensures
            r is Ok,
            r.unwrap()@ == 0,
    {
        Ok(U256::zero())
    }

    /// Whether the node is mining: whether it authors blocks.
    pub fn is_mining(&self) -> (r: Result<bool, RpcError>)
        ensures
            r == Ok::<bool, RpcError>(self.spec_is_authority()),
    {
        Ok(self.is_authority)
    }

    /// The hash rate: zero.
    pub fn hashrate(&self) -> (r: Result<U256, RpcError>)
        ensures
            r is Ok,
            r.unwrap()@ == 0,
    {
        Ok(U256::zero())
    }

    /// The proof-of-work package: all zero.
    pub fn work(&self) -> (r: Result<Work, RpcError>)
        ensures
            r is Ok,
            r.unwrap().pow_hash@ == Seq::new(32, |i: int| 0u8),
            r.unwrap().seed_hash@ == Seq::new(32, |i: int| 0u8),
            r.unwrap().target@ == Seq::new(32, |i: int| 0u8),
            r.unwrap().number is None,
    {
        let zero = H256 { bytes: [0u8; 32] };
        assert(zero@ =~= Seq::new(32, |i: int| 0u8));
        Ok(Work { pow_hash: zero, seed_hash: zero, target: zero, number: None })
    }

    /// A submitted hash rate is not taken.
    pub fn submit_hashrate(&self) -> (r: Result<bool, RpcError>)
        ensures
            r == Ok::<bool, RpcError>(false),
    {
        Ok(false)
    }

    /// A submitted proof-of-work solution is not taken.
    pub fn submit_work(&self) -> (r: Result<bool, RpcError>)
        ensures
            r == Ok::<bool, RpcError>(false),
    {
        Ok(false)
    }

    /// Takes up a raw transaction: a buffer that decodes waits for the
    /// backend's conversion contract, any other has failed already.
    pub fn send_raw_transaction<U>(&self, bytes: &[u8]) -> (r: Submission<U>)
        ensures
            match decoding(bytes@) {
                Ok((kind, hash)) => r matches Submission::Probing { transaction }
                    && transaction.spec_kind() == kind && transaction.spec_hash()@ == hash
                    && transaction.spec_payload() == bytes@,
                Err(error) => r == Submission::<U>::Finished(Err(SubmitError::Decode(error))),
            },
    {
        Submission::start(bytes)
    }

    /// Moves a submission on by the outcome of the work it waited for, under
    /// this node's configuration.
    pub fn advance<U>(&self, submission: Submission<U>, event: SubmissionEvent<U>) -> (r:
        Submission<U>)
        ensures
            r == submission.after(event, self.spec_has_converter()),
    {
        submission.step(event, self.has_converter)
    }

    /// Reports how a submission ended: the hash of the accepted transaction,
    /// or an internal error with the message of the failure.
    pub fn reply(&self, result: Result<H256, SubmitError>) -> (r: Result<H256, RpcError>)
        ensures
            match result {
                Ok(hash) => r == Ok::<H256, RpcError>(hash),
                Err(error) => (r matches Err(reported) && is_internal(reported, submit_failure(error))),
            },
    {
        match result {
            Ok(hash) => Ok(hash),
            Err(error) => Err(
                match error {
                    SubmitError::Decode(DecodeError::Empty) => internal_err(
                        "transaction data is empty",
                    ),
                    SubmitError::Decode(DecodeError::Malformed) => internal_err(
                        "decode transaction failed",
                    ),
                    SubmitError::BackendUnavailable => internal_err("cannot access runtime api"),
                    SubmitError::UnsupportedVersion => internal_err(
                        "ConvertTransactionRuntimeApi version not supported",
                    ),
                    SubmitError::UnsupportedOnBackend => internal_err(
                        "This runtime not support eth transactions v2",
                    ),
                    SubmitError::NoConverterAvailable => internal_err(
                        "No TransactionConverter is provided and the runtime api ConvertTransactionRuntimeApi is not found",
                    ),
                    SubmitError::PoolRejection(reason) => internal_err(reason.as_str()),
                },
            ),
        }
    }
}

} // verus!
