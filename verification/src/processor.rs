//! The forward-request codec and the per-chain processor that prepares
//! submissions for the trusted forwarder.
use crate::configs::{ChainsConfig, ConfigurationError, RelayerAccounts};
use crate::primitives::{
    address_bytes_of, is_address_text, lemma_address_view_injective, lemma_u256_view_injective,
    lemma_u48_view_injective, Address, InvalidAddress, U256, U48,
};
use crate::relay::PendingSubmission;
use crate::rotation::{lemma_rotate_n_keeps_elements, rotate, rotate_n};
use vstd::prelude::*;
use vstd::std_specs::convert::FromSpecImpl;

verus! {

/// What a forward request says, as mathematical values.
pub ghost struct ForwardRequestView {
    /// The account on whose behalf the call is made.
    pub from: Seq<u8>,
    /// The contract that is called.
    pub to: Seq<u8>,
    /// The native currency sent along.
    pub value: nat,
    /// The gas handed to the call.
    pub gas: nat,
    /// The time after which the request is void.
    pub deadline: nat,
    /// The call data.
    pub data: Seq<u8>,
    /// The sender's signature over the request.
    pub signature: Seq<u8>,
}

/// One relay request, shaped for the forwarder contract.
#[derive(Debug, Clone, PartialEq, Eq)]
pub struct ForwardRequestData {
    pub from: Address,
    pub to: Address,
    pub value: U256,
    pub gas: U256,
    pub deadline: U48,
    pub data: Vec<u8>,
    pub signature: Vec<u8>,
}

/// The request tuple that the forwarder's `execute` and `executeBatch` take.
#[derive(Debug, Clone, PartialEq, Eq)]
pub struct ForwardCallData {
    pub from: Address,
    pub to: Address,
    pub value: U256,
    pub gas: U256,
    pub deadline: U48,
    pub data: Vec<u8>,
    pub signature: Vec<u8>,
}

impl View for ForwardRequestData {
    type V = ForwardRequestView;

    open spec fn view(&self) -> ForwardRequestView {
        ForwardRequestView {
            from: self.from@,
            to: self.to@,
            value: self.value@,
            gas: self.gas@,
            deadline: self.deadline@,
            data: self.data@,
            signature: self.signature@,
        }
    }
}

impl View for ForwardCallData {
    type V = ForwardRequestView;

    open spec fn view(&self) -> ForwardRequestView {
        ForwardRequestView {
            from: self.from@,
            to: self.to@,
            value: self.value@,
            gas: self.gas@,
            deadline: self.deadline@,
            data: self.data@,
            signature: self.signature@,
        }
    }
}

/// A call whose view is that of a request has the request's fields, each
/// exactly: nothing is transformed and nothing is cut short.
pub proof fn lemma_equal_views_equal_fields(call: ForwardCallData, request: ForwardRequestData)
    requires
        call@ == request@,
    ensures
        call.from == request.from,
        call.to == request.to,
        call.value == request.value,
        call.gas == request.gas,
        call.deadline == request.deadline,
        call.data@ == request.data@,
        call.signature@ == request.signature@,
{
    lemma_address_view_injective(call.from, request.from);
    lemma_address_view_injective(call.to, request.to);
    lemma_u256_view_injective(call.value, request.value);
    lemma_u256_view_injective(call.gas, request.gas);
    lemma_u48_view_injective(call.deadline, request.deadline);
}

impl From<ForwardRequestData> for ForwardCallData {
    /// Field for field, nothing changed.
    fn from(data: ForwardRequestData) -> (call: Self) {
        Self {
            from: data.from,
            to: data.to,
            value: data.value,
            gas: data.gas,
            deadline: data.deadline,
            data: data.data,
            signature: data.signature,
        }
    }
}

impl FromSpecImpl<ForwardRequestData> for ForwardCallData {
    open spec fn obeys_from_spec() -> bool {
        true
    }

    open spec fn from_spec(data: ForwardRequestData) -> Self {
        ForwardCallData {
            from: data.from,
            to: data.to,
            value: data.value,
            gas: data.gas,
            deadline: data.deadline,
            data: data.data,
            signature: data.signature,
        }
    }
}

impl From<&ForwardRequestData> for ForwardCallData {
    /// Field for field, the byte strings copied.
    fn from(data: &ForwardRequestData) -> (call: Self)
        ensures
            call@ == data@,
    {
        Self {
            from: data.from,
            to: data.to,
            value: data.value,
            gas: data.gas,
            deadline: data.deadline,
            data: data.data.clone(),
            signature: data.signature.clone(),
        }
    }
}

impl FromSpecImpl<&ForwardRequestData> for ForwardCallData {
    open spec fn obeys_from_spec() -> bool {
        false
    }

    open spec fn from_spec(data: &ForwardRequestData) -> Self {
        ForwardCallData {
            from: data.from,
            to: data.to,
            value: data.value,
            gas: data.gas,
            deadline: data.deadline,
            data: data.data,
            signature: data.signature,
        }
    }
}

/// A call on the trusted forwarder, ready to be broadcast.
#[derive(Debug, Clone, PartialEq, Eq)]
pub enum ChainCallPayload {
    /// `execute(request)`.
    Execute { request: ForwardCallData },
    /// `executeBatch(requests, refundReceiver)`.
    ExecuteBatch { requests: Vec<ForwardCallData>, refund_receiver: Address },
}

/// What a forwarder call says, as mathematical values.
pub ghost enum ChainCallView {
    Execute { request: ForwardRequestView },
    ExecuteBatch { requests: Seq<ForwardRequestView>, refund_receiver: Seq<u8> },
}

/// The requests of a sequence as mathematical values, in the same order.
pub open spec fn request_views(requests: Seq<ForwardRequestData>) -> Seq<ForwardRequestView> {
    requests.map_values(|r: ForwardRequestData| r@)
}

/// The calls of a sequence as mathematical values, in the same order.
pub open spec fn call_views(calls: Seq<ForwardCallData>) -> Seq<ForwardRequestView> {
    calls.map_values(|c: ForwardCallData| c@)
}

impl View for ChainCallPayload {
    type V = ChainCallView;

    open spec fn view(&self) -> ChainCallView {
        match self {
            ChainCallPayload::Execute { request } => ChainCallView::Execute { request: request@ },
            ChainCallPayload::ExecuteBatch { requests, refund_receiver } => {
                ChainCallView::ExecuteBatch {
                    requests: call_views(requests@),
                    refund_receiver: refund_receiver@,
                }
            },
        }
    }
}

/// The call that submits one request: `execute` with every field of the
/// request as it was given.
pub fn encode_single(request: ForwardRequestData) -> (payload: ChainCallPayload)
    ensures
        payload@ == (ChainCallView::Execute { request: request@ }),
{
    ChainCallPayload::Execute { request: ForwardCallData::from(request) }
}

/// The call that submits a batch: `executeBatch` with the requests in the
/// order given and one refund receiver for all of them. Fails, without
/// producing a call, exactly when `refund_receiver` is not the text of an
/// address.
pub fn encode_batch(requests: &Vec<ForwardRequestData>, refund_receiver: &str) -> (r: Result<
    ChainCallPayload,
    InvalidAddress,
>)
    ensures
        r is Ok <==> is_address_text(refund_receiver@),
        r matches Ok(payload) ==> payload@ == (ChainCallView::ExecuteBatch {
            requests: request_views(requests@),
            refund_receiver: address_bytes_of(refund_receiver@),
        }),
{
    let refund = match Address::parse(refund_receiver) {
        Ok(address) => address,
        Err(e) => {
            return Err(e);
        },
    };
    let mut calls: Vec<ForwardCallData> = Vec::new();
    let mut i: usize = 0;
    while i < requests.len()
        invariant
            i <= requests.len(),
            calls.len() == i,
            forall|j: int| 0 <= j < i ==> (#[trigger] calls[j])@ == requests[j]@,
        decreases requests.len() - i,
    {
        calls.push(ForwardCallData::from(&requests[i]));
        i += 1;
    }
    assert(call_views(calls@) =~= request_views(requests@));
    Ok(ChainCallPayload::ExecuteBatch { requests: calls, refund_receiver: refund })
}

/// Whether `pool` is the order that some number of hand-outs makes of `keys`.
pub open spec fn is_rotation_of(pool: Seq<Seq<char>>, keys: Seq<Seq<char>>) -> bool {
    exists|k: nat| pool == #[trigger] rotate_n(keys, k)
}

/// Prepares the submissions of one chain: picks the account that pays and
/// shapes the call on the trusted forwarder.
pub struct Processor {
    chains_config: ChainsConfig,
    trusted_forwarder: Address,
    accounts: RelayerAccounts,
}

/// A call ready to be broadcast, and the key of the one account that signs
/// and pays for it.
#[derive(Debug, Clone, PartialEq, Eq)]
pub struct Submission {
    /// Private key of the paying account.
    pub account: String,
    /// The call on the trusted forwarder.
    pub payload: ChainCallPayload,
}

/// Why a submission was not made.
#[derive(Debug, Clone, PartialEq, Eq)]
pub enum ProcessorError {
    /// The refund receiver is not the text of an address.
    InvalidAddress,
    /// The node rejected the broadcast.
    Submission { reason: String },
}

/// What the node answered to a broadcast.
#[derive(Debug, Clone, PartialEq, Eq)]
pub enum BroadcastOutcome {
    /// The node took the transaction.
    Accepted { transaction_hash: String },
    /// The node rejected the call or could not be reached.
    Rejected { reason: String },
}

impl Processor {
    /// What every processor built by [`Processor::new`] or
    /// [`Processor::try_new`] satisfies, and every method keeps: the pool
    /// holds an account, in some rotation of the configured order.
    pub closed spec fn well_formed(&self) -> bool {
        &&& self.chains_config.account_keys().len() > 0
        &&& self.accounts@.len() > 0
        &&& is_rotation_of(self.accounts@, self.chains_config.account_keys())
    }

    /// The configuration of the chain served.
    pub closed spec fn config(&self) -> ChainsConfig {
        self.chains_config
    }

    /// The address of the trusted forwarder.
    pub closed spec fn forwarder(&self) -> Address {
        self.trusted_forwarder
    }

    /// The signing keys in the order in which they will pay next.
    pub closed spec fn pool(&self) -> Seq<Seq<char>> {
        self.accounts@
    }

    /// A processor for the chain of `chains_config`, whose accounts pay in the
    /// configured order, starting with the first.
    pub fn new(chains_config: ChainsConfig, trusted_forwarder: Address) -> (processor: Self)
        requires
            chains_config.account_keys().len() > 0,
        ensures
            processor.well_formed(),
            processor.config() == chains_config,
            processor.forwarder() == trusted_forwarder,
            processor.pool() == chains_config.account_keys(),
    {
        let keys = chains_config.accounts_private_keys.clone();
        assert(keys.deep_view() =~= chains_config.account_keys());
        let accounts = RelayerAccounts::new(keys);
        assert(accounts@ == rotate_n(chains_config.account_keys(), 0));
        Processor { chains_config, trusted_forwarder, accounts }
    }

    /// A processor built on a configuration that is checked first, as
    /// [`ChainsConfig::validate`] checks it.
    pub fn try_new(chains_config: ChainsConfig) -> (r: Result<Self, ConfigurationError>)
        ensures
            r is Ok <==> chains_config.usable(),
            r matches Ok(processor) ==> {
                &&& processor.well_formed()
                &&& processor.config() == chains_config
                &&& processor.forwarder()@ == address_bytes_of(chains_config.trusted_forwarder@)
                &&& processor.pool() == chains_config.account_keys()
            },
            r matches Err(e) ==> chains_config.rejected_with(e),
    {
        match chains_config.validate() {
            Ok(forwarder) => Ok(Processor::new(chains_config, forwarder)),
            Err(e) => Err(e),
        }
    }

    /// The configuration of the chain served.
    pub fn chains_config(&self) -> (config: &ChainsConfig)
        ensures
            *config == self.config(),
    {
        &self.chains_config
    }

    /// The address of the trusted forwarder.
    pub fn trusted_forwarder(&self) -> (forwarder: Address)
        ensures
            forwarder == self.forwarder(),
    {
        self.trusted_forwarder
    }

    /// Number of accounts in the pool.
    pub fn account_count(&self) -> (n: usize)
        ensures
            n == self.pool().len(),
    {
        self.accounts.len()
    }

    /// A well-formed processor has an account to hand out, and its pool is
    /// the configured keys in rotated order: no key was lost or duplicated.
    pub proof fn lemma_pool_keeps_keys(&self)
        requires
            self.well_formed(),
        ensures
            self.pool().len() > 0,
            self.pool().len() == self.config().account_keys().len(),
            is_rotation_of(self.pool(), self.config().account_keys()),
            self.pool().to_multiset() == self.config().account_keys().to_multiset(),
    {
        let keys = self.config().account_keys();
        let k = choose|k: nat| self.pool() == #[trigger] rotate_n(keys, k);
        lemma_rotate_n_keeps_elements(keys, k);
    }

    /// Prepares the submission of one request: the account at the front of
    /// the pool pays and moves to the back, and the call is `execute` with the
    /// request as given.
    pub fn process_request(&mut self, request: ForwardRequestData) -> (submission: Submission)
        requires
            old(self).well_formed(),
        ensures
            final(self).well_formed(),
            submission.account@ == old(self).pool().first(),
            submission.payload@ == (ChainCallView::Execute { request: request@ }),
            final(self).pool() == rotate(old(self).pool()),
            final(self).config() == old(self).config(),
            final(self).forwarder() == old(self).forwarder(),
    {
        let account = self.next_account();
        Submission { account, payload: encode_single(request) }
    }

    /// Prepares the submission of a batch. The refund receiver is checked
    /// before anything else happens: where it is not the text of an address
    /// the batch is rejected and the pool is left as it was. Otherwise the
    /// account at the front of the pool pays and moves to the back, and the
    /// call is `executeBatch` with the requests in the order given.
    pub fn process_batch_request(
        &mut self,
        request: Vec<ForwardRequestData>,
        refund_receiver: String,
    ) -> (r: Result<Submission, ProcessorError>)
        requires
            old(self).well_formed(),
        ensures
            final(self).well_formed(),
            r is Ok <==> is_address_text(refund_receiver@),
            r matches Ok(submission) ==> {
                &&& submission.account@ == old(self).pool().first()
                &&& submission.payload@ == (ChainCallView::ExecuteBatch {
                    requests: request_views(request@),
                    refund_receiver: address_bytes_of(refund_receiver@),
                })
                &&& final(self).pool() == rotate(old(self).pool())
            },
            r matches Err(e) ==> e is InvalidAddress && final(self).pool() == old(self).pool(),
            final(self).config() == old(self).config(),
            final(self).forwarder() == old(self).forwarder(),
    {
        match encode_batch(&request, refund_receiver.as_str()) {
            Ok(payload) => {
                let account = self.next_account();
                Ok(Submission { account, payload })
            },
            Err(_) => Err(ProcessorError::InvalidAddress),
        }
    }

    /// Turns the node's answer to a broadcast into the handle to watch, or
    /// into the error to surface. Nothing is retried.
    pub fn record_broadcast(
        &self,
        request_ids: Vec<String>,
        outcome: BroadcastOutcome,
        submitted_at: i64,
    ) -> (r: Result<PendingSubmission, ProcessorError>)
        ensures
            match outcome {
                BroadcastOutcome::Accepted { transaction_hash } => r == Ok::<
                    PendingSubmission,
                    ProcessorError,
                >(
                    PendingSubmission {
                        chain_id: self.config().chain_id,
                        transaction_hash,
                        request_ids,
                        submitted_at,
                    },
                ),
                BroadcastOutcome::Rejected { reason } => r == Err::<
                    PendingSubmission,
                    ProcessorError,
                >(ProcessorError::Submission { reason }),
            },
    {
        match outcome {
            BroadcastOutcome::Accepted { transaction_hash } => Ok(
                PendingSubmission {
                    chain_id: self.chains_config.chain_id,
                    transaction_hash,
                    request_ids,
                    submitted_at,
                },
            ),
            BroadcastOutcome::Rejected { reason } => Err(ProcessorError::Submission { reason }),
        }
    }

    /// Hands out the account that pays for the next submission.
    fn next_account(&mut self) -> (account: String)
        requires
            old(self).well_formed(),
        ensures
            final(self).well_formed(),
            account@ == old(self).pool().first(),
            final(self).pool() == rotate(old(self).pool()),
            final(self).config() == old(self).config(),
            final(self).forwarder() == old(self).forwarder(),
    {
        let ghost keys = self.chains_config.account_keys();
        let ghost k = choose|k: nat| self.accounts@ == #[trigger] rotate_n(keys, k);
        let account = self.accounts.get_current_key();
        assert(rotate_n(keys, k + 1) == rotate(rotate_n(keys, k)));
        account
    }
}

} // verus!
