//! Lifecycle of a relay request: its states, the record kept of it, and how
//! the outcome of watching a transaction settles that record.
use crate::primitives::{is_lower_hex_digit, lemma_lower_hex_digits, prefixed_lower_hex};
use vstd::prelude::*;
use vstd::std_specs::convert::FromSpecImpl;
use vstd::string::StringExecFns;

verus! {

/// Lifecycle state of a relay request.
#[derive(Clone, Copy, Debug, PartialEq, Eq, Structural)]
pub enum RequestState {
    /// The request has been sent but not yet mined.
    Pending,
    /// The request has been mined and succeeded.
    Success,
    /// The request has been mined and failed.
    Failed,
    /// The request took too long to be mined.
    Timeout,
}

/// A text that names no lifecycle state.
#[derive(Clone, Copy, Debug, PartialEq, Eq, Structural)]
pub struct UnknownState;

/// The text under which a state is stored.
pub open spec fn state_label(state: RequestState) -> Seq<char> {
    match state {
        RequestState::Pending => "Pending"@,
        RequestState::Success => "Success"@,
        RequestState::Failed => "Failed"@,
        RequestState::Timeout => "Timeout"@,
    }
}

/// The state that a text names, if it names one.
pub open spec fn state_of_label(label: Seq<char>) -> Option<RequestState> {
    if label == "Pending"@ {
        Some(RequestState::Pending)
    } else if label == "Success"@ {
        Some(RequestState::Success)
    } else if label == "Failed"@ {
        Some(RequestState::Failed)
    } else if label == "Timeout"@ {
        Some(RequestState::Timeout)
    } else {
        None
    }
}

/// Reading back the text of a state gives that state.
pub proof fn lemma_label_round_trip(state: RequestState)
    ensures
        state_of_label(state_label(state)) == Some(state),
{
    reveal_strlit("Pending");
    reveal_strlit("Success");
    reveal_strlit("Failed");
    reveal_strlit("Timeout");
    assert("Pending"@[0] == 'P');
    assert("Success"@[0] == 'S');
    assert("Failed"@[0] == 'F');
    assert("Timeout"@[0] == 'T');
}

impl RequestState {
    /// Whether no transition leaves this state.
    pub open spec fn terminal(self) -> bool {
        self != RequestState::Pending
    }

    /// Tells whether the state is terminal.
    pub fn is_terminal(&self) -> (r: bool)
        ensures
            r == self.terminal(),
    {
        match self {
            RequestState::Pending => false,
            _ => true,
        }
    }

    /// The text under which the state is stored.
    pub fn label(&self) -> (text: String)
        ensures
            text@ == state_label(*self),
    {
        match self {
            RequestState::Pending => String::from_str("Pending"),
            RequestState::Success => String::from_str("Success"),
            RequestState::Failed => String::from_str("Failed"),
            RequestState::Timeout => String::from_str("Timeout"),
        }
    }

    /// The state stored under `label`; a text that names no state is an
    /// error, not a crash.
    pub fn from_label(label: &str) -> (r: Result<RequestState, UnknownState>)
        ensures
            r is Ok <==> state_of_label(label@) is Some,
            r matches Ok(state) ==> state_of_label(label@) == Some(state),
    {
        let text = String::from_str(label);
        if text == String::from_str("Pending") {
            Ok(RequestState::Pending)
        } else if text == String::from_str("Success") {
            Ok(RequestState::Success)
        } else if text == String::from_str("Failed") {
            Ok(RequestState::Failed)
        } else if text == String::from_str("Timeout") {
            Ok(RequestState::Timeout)
        } else {
            Err(UnknownState)
        }
    }
}

impl From<RequestState> for String {
    /// The text under which the state is stored.
    fn from(state: RequestState) -> (text: String)
        ensures
            text@ == state_label(state),
    {
        state.label()
    }
}

impl FromSpecImpl<RequestState> for String {
    /// Two strings of one text need not be one value, so the conversion
    /// promises the text, as its own `ensures` says, and no more.
    open spec fn obeys_from_spec() -> bool {
        false
    }

    open spec fn from_spec(state: RequestState) -> String {
        choose|text: String| text@ == state_label(state)
    }
}

/// A relay request as a client sends it.
#[derive(Debug, Clone, PartialEq, Eq)]
pub struct RelayRequest {
    pub from: String,
    pub to: String,
    pub value: u64,
    pub gas: u64,
    pub deadline: u64,
    pub data: String,
    pub nonce: u64,
    pub signature: String,
}

/// The durable record of a relay request's outcome. Times are seconds since
/// the Unix epoch. Until a receipt is recorded, the transaction hash is
/// empty and block number, mining time and gas used are zero.
#[derive(Debug, Clone, PartialEq, Eq)]
pub struct RequestStatus {
    pub chain_id: u64,
    pub request_id: String,
    pub request_state: RequestState,
    pub created_at: i64,
    pub transaction_hash: String,
    pub block_number: u64,
    pub mined_at: i64,
    pub gas_used: u64,
}

/// What a record says, as mathematical values.
pub ghost struct RequestStatusView {
    pub chain_id: u64,
    pub request_id: Seq<char>,
    pub request_state: RequestState,
    pub created_at: i64,
    pub transaction_hash: Seq<char>,
    pub block_number: u64,
    pub mined_at: i64,
    pub gas_used: u64,
}

impl View for RequestStatus {
    type V = RequestStatusView;

    open spec fn view(&self) -> RequestStatusView {
        RequestStatusView {
            chain_id: self.chain_id,
            request_id: self.request_id@,
            request_state: self.request_state,
            created_at: self.created_at,
            transaction_hash: self.transaction_hash@,
            block_number: self.block_number,
            mined_at: self.mined_at,
            gas_used: self.gas_used,
        }
    }
}

/// What the chain reports of a mined transaction.
#[derive(Debug, Clone, PartialEq, Eq)]
pub struct Receipt {
    /// Whether the transaction succeeded.
    pub success: bool,
    pub transaction_hash: String,
    pub block_number: u64,
    /// Time of the block, in seconds since the Unix epoch.
    pub mined_at: i64,
    pub gas_used: u64,
}

/// How watching a pending transaction ended.
#[derive(Debug, Clone, PartialEq, Eq)]
pub enum WatchOutcome {
    /// The chain reported a receipt before the timeout.
    Mined(Receipt),
    /// The timeout elapsed and no receipt was seen.
    TimedOut,
}

/// What a receipt says, as mathematical values.
pub ghost struct ReceiptView {
    pub success: bool,
    pub transaction_hash: Seq<char>,
    pub block_number: u64,
    pub mined_at: i64,
    pub gas_used: u64,
}

/// How a watch ended, as mathematical values.
pub ghost enum WatchOutcomeView {
    Mined(ReceiptView),
    TimedOut,
}

impl View for Receipt {
    type V = ReceiptView;

    open spec fn view(&self) -> ReceiptView {
        ReceiptView {
            success: self.success,
            transaction_hash: self.transaction_hash@,
            block_number: self.block_number,
            mined_at: self.mined_at,
            gas_used: self.gas_used,
        }
    }
}

impl View for WatchOutcome {
    type V = WatchOutcomeView;

    open spec fn view(&self) -> WatchOutcomeView {
        match self {
            WatchOutcome::Mined(receipt) => WatchOutcomeView::Mined(receipt@),
            WatchOutcome::TimedOut => WatchOutcomeView::TimedOut,
        }
    }
}

/// The state that a watch resolves to: `Success` or `Failed` as the receipt
/// says, `Timeout` where there is none.
pub open spec fn resolved_state(outcome: WatchOutcomeView) -> RequestState {
    match outcome {
        WatchOutcomeView::Mined(receipt) => if receipt.success {
            RequestState::Success
        } else {
            RequestState::Failed
        },
        WatchOutcomeView::TimedOut => RequestState::Timeout,
    }
}

/// The record of a request that was just accepted for submission.
pub open spec fn pending_status(chain_id: u64, request_id: Seq<char>, created_at: i64)
    -> RequestStatusView {
    RequestStatusView {
        chain_id,
        request_id,
        request_state: RequestState::Pending,
        created_at,
        transaction_hash: Seq::empty(),
        block_number: 0,
        mined_at: 0,
        gas_used: 0,
    }
}

/// The record after an outcome was written to it. A pending record takes
/// the resolved state, and from a receipt also hash, block number, mining
/// time and gas used; a timeout changes the state alone. A record that is
/// already terminal stays as it is.
pub open spec fn settled(status: RequestStatusView, outcome: WatchOutcomeView)
    -> RequestStatusView {
    if status.request_state.terminal() {
        status
    } else {
        match outcome {
            WatchOutcomeView::Mined(receipt) => RequestStatusView {
                request_state: resolved_state(outcome),
                transaction_hash: receipt.transaction_hash,
                block_number: receipt.block_number,
                mined_at: receipt.mined_at,
                gas_used: receipt.gas_used,
                ..status
            },
            WatchOutcomeView::TimedOut => RequestStatusView {
                request_state: RequestState::Timeout,
                ..status
            },
        }
    }
}

/// A watch resolves to exactly one of the three terminal states, never to
/// `Pending`, and a settled record is terminal.
pub proof fn lemma_settled_is_terminal(status: RequestStatusView, outcome: WatchOutcomeView)
    ensures
        resolved_state(outcome).terminal(),
        settled(status, outcome).request_state.terminal(),
        !status.request_state.terminal() ==> settled(status, outcome).request_state
            == resolved_state(outcome),
{
}

/// Writing an outcome to a record that is already terminal changes nothing,
/// so settling twice is the same as settling once.
pub proof fn lemma_settle_once(
    status: RequestStatusView,
    first: WatchOutcomeView,
    second: WatchOutcomeView,
)
    ensures
        status.request_state.terminal() ==> settled(status, first) == status,
        settled(settled(status, first), second) == settled(status, first),
{
}

/// A timeout sets the state of a pending record and nothing else: hash,
/// block number, mining time and gas used stay as they were.
pub proof fn lemma_timeout_sets_state_only(status: RequestStatusView)
    requires
        !status.request_state.terminal(),
    ensures
        settled(status, WatchOutcomeView::TimedOut) == (RequestStatusView {
            request_state: RequestState::Timeout,
            ..status
        }),
{
}

/// A request that times out before any receipt was seen ends in `Timeout`
/// with block number and gas used unset.
pub proof fn lemma_timeout_leaves_receipt_fields_unset(
    chain_id: u64,
    request_id: Seq<char>,
    created_at: i64,
)
    ensures
        ({
            let record = settled(
                pending_status(chain_id, request_id, created_at),
                WatchOutcomeView::TimedOut,
            );
            &&& record.request_state == RequestState::Timeout
            &&& record.transaction_hash.len() == 0
            &&& record.block_number == 0
            &&& record.mined_at == 0
            &&& record.gas_used == 0
        }),
{
}

/// The state that `outcome` resolves a request to.
pub fn resolve(outcome: &WatchOutcome) -> (state: RequestState)
    ensures
        state == resolved_state(outcome@),
        state.terminal(),
{
    match outcome {
        WatchOutcome::Mined(receipt) => if receipt.success {
            RequestState::Success
        } else {
            RequestState::Failed
        },
        WatchOutcome::TimedOut => RequestState::Timeout,
    }
}

impl RequestStatus {
    /// The record of a request that was just accepted for submission.
    pub fn pending(chain_id: u64, request_id: String, created_at: i64) -> (status: Self)
        ensures
            status@ == pending_status(chain_id, request_id@, created_at),
    {
        RequestStatus {
            chain_id,
            request_id,
            request_state: RequestState::Pending,
            created_at,
            transaction_hash: String::new(),
            block_number: 0,
            mined_at: 0,
            gas_used: 0,
        }
    }

    /// Writes the outcome of the watch to the record and returns the state
    /// the record is in afterwards. Only a pending record changes.
    pub fn settle(&mut self, outcome: &WatchOutcome) -> (state: RequestState)
        ensures
            final(self)@ == settled(old(self)@, outcome@),
            state == final(self).request_state,
            state.terminal(),
    {
        if self.request_state.is_terminal() {
            return self.request_state;
        }
        match outcome {
            WatchOutcome::Mined(receipt) => {
                self.request_state = resolve(outcome);
                self.transaction_hash = receipt.transaction_hash.clone();
                self.block_number = receipt.block_number;
                self.mined_at = receipt.mined_at;
                self.gas_used = receipt.gas_used;
            },
            WatchOutcome::TimedOut => {
                self.request_state = RequestState::Timeout;
            },
        }
        self.request_state
    }
}

/// The records of a sequence as mathematical values, in the same order.
pub open spec fn status_views(statuses: Seq<RequestStatus>) -> Seq<RequestStatusView> {
    statuses.map_values(|s: RequestStatus| s@)
}

/// Writes one outcome to the records of all requests that one transaction
/// carried: each is settled as [`RequestStatus::settle`] settles it.
pub fn settle_all(statuses: &mut Vec<RequestStatus>, outcome: &WatchOutcome)
    ensures
        final(statuses).len() == old(statuses).len(),
        forall|i: int|
            0 <= i < old(statuses).len() ==> (#[trigger] final(statuses)[i])@ == settled(
                old(statuses)[i]@,
                outcome@,
            ),
{
    let mut i: usize = 0;
    while i < statuses.len()
        invariant
            i <= statuses.len(),
            statuses.len() == old(statuses).len(),
            forall|j: int|
                0 <= j < i ==> (#[trigger] statuses[j])@ == settled(old(statuses)[j]@, outcome@),
            forall|j: int| i <= j < statuses.len() ==> statuses[j] == old(statuses)[j],
        decreases statuses.len() - i,
    {
        statuses[i].settle(outcome);
        i += 1;
    }
}

/// The handle of a transaction that was broadcast and is not yet settled.
#[derive(Debug, Clone, PartialEq, Eq)]
pub struct PendingSubmission {
    pub chain_id: u64,
    pub transaction_hash: String,
    /// The requests that the transaction carries: one, or those of a batch.
    pub request_ids: Vec<String>,
    /// Time of the broadcast, in seconds since the Unix epoch.
    pub submitted_at: i64,
}

/// Whether `id` has the shape of a request id: `0x` and sixty-four
/// lower-case hexadecimal digits.
pub open spec fn is_request_id(id: Seq<char>) -> bool {
    &&& id.len() == 66
    &&& id[0] == '0'
    &&& id[1] == 'x'
    &&& forall|i: int| 2 <= i < 66 ==> is_lower_hex_digit(#[trigger] id[i])
}

/// The text of thirty-two bytes has the shape of a request id.
pub proof fn lemma_text_is_request_id(bytes: Seq<u8>)
    requires
        bytes.len() == 32,
    ensures
        is_request_id(prefixed_lower_hex(bytes)),
{
    let id = prefixed_lower_hex(bytes);
    lemma_lower_hex_digits(bytes, 0);
    assert forall|i: int| 2 <= i < 66 implies is_lower_hex_digit(#[trigger] id[i]) by {
        lemma_lower_hex_digits(bytes, i - 2);
    }
}

/// Thirty-two bytes from `B256::random` of alloy-primitives, which draws
/// them from the thread's random number generator. Nothing is claimed of
/// the bytes.
#[verifier::external_body]
fn random_b256() -> (bytes: [u8; 32]) {
    alloy::primitives::B256::random().0
}

/// The text that alloy-primitives' `Display` gives a `B256`.
///
/// Claimed of it: `0x`, then two lower-case hexadecimal digits for each
/// byte, the high digit first.
#[verifier::external_body]
fn b256_to_string(bytes: &[u8; 32]) -> (text: String)
    ensures
        text@ == prefixed_lower_hex(bytes@),
{
    alloy::primitives::B256::new(*bytes).to_string()
}

/// The request id that spells `bytes`.
pub fn request_id_from_bytes(bytes: &[u8; 32]) -> (id: String)
    ensures
        id@ == prefixed_lower_hex(bytes@),
        is_request_id(id@),
{
    proof {
        lemma_text_is_request_id(bytes@);
    }
    b256_to_string(bytes)
}

/// A fresh request id, drawn at random.
pub fn generate_request_id() -> (id: String)
    ensures
        is_request_id(id@),
{
    let bytes = random_b256();
    request_id_from_bytes(&bytes)
}

} // verus!
