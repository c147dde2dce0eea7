use vstd::prelude::*;
use crate::encoding::{debug_quote, debug_text};
use crate::error::ServiceError;
use crate::json::{Json, JsonValue, Member, json_field, lemma_field_finds_first_member};
use crate::rpc::{object_of, rpc_request};
use crate::service::{Service, group_text_params};

verus! {

/// How long a deployment waits before it asks again for a receipt the node
/// does not have yet.
pub const RECEIPT_POLL_INTERVAL_MS: u64 = 200;

/// What a deployment waits for once its transaction has been sent.
#[derive(Debug, Clone, Copy)]
pub enum DeployStage {
    /// The time elapsed since the transaction was sent.
    ReadingClock,
    /// The reply to a receipt request.
    AwaitingReceipt,
    /// The reply to the request that fetches the receipt once more, after the
    /// node first reported it.
    AwaitingConfirmedReceipt,
    /// Nothing: the deployment is over.
    Finished,
}

/// What the caller hands a deployment in progress.
#[derive(Debug)]
pub enum DeployEvent {
    /// The milliseconds elapsed since the transaction was sent.
    Elapsed(u128),
    /// The node's reply to the last receipt request.
    Receipt(JsonValue),
    /// The last receipt request failed.
    Failed(ServiceError),
}

/// What a deployment in progress asks its caller to do next.
#[derive(Debug)]
pub enum DeployAction {
    /// Send this request to the node and hand back its reply as `Receipt`, or
    /// its failure as `Failed`.
    Fetch(JsonValue),
    /// Wait this many milliseconds, then hand back the elapsed time as
    /// `Elapsed`.
    Sleep(u64),
    /// The deployment is over, with this outcome.
    Finish(Result<JsonValue, ServiceError>),
}

/// The model of a deployment in progress.
pub struct DeployState {
    pub transaction_hash: Seq<char>,
    pub receipt_request: Json,
    pub timeout_ms: int,
    pub stage: DeployStage,
}

/// A deployment whose transaction has been sent, waiting for its receipt.
pub struct DeployPoll {
    transaction_hash: String,
    receipt_request: JsonValue,
    timeout_ms: u128,
    stage: DeployStage,
}

impl View for DeployPoll {
    type V = DeployState;

    closed spec fn view(&self) -> DeployState {
        DeployState {
            transaction_hash: self.transaction_hash@,
            receipt_request: self.receipt_request@,
            timeout_ms: self.timeout_ms as int,
            stage: self.stage,
        }
    }
}

/// Whether a deployment in `stage` takes `event`.
pub open spec fn accepts(stage: DeployStage, event: DeployEvent) -> bool {
    match stage {
        DeployStage::ReadingClock => event is Elapsed,
        DeployStage::AwaitingReceipt => event is Receipt || event is Failed,
        DeployStage::AwaitingConfirmedReceipt => event is Receipt || event is Failed,
        DeployStage::Finished => false,
    }
}

/// The message of the error a deployment ends with when its receipt does not
/// come in time.
pub open spec fn timeout_message(transaction_hash: Seq<char>) -> Seq<char> {
    "Contract deployed, but the action for fetching transaction receipt is timeout. Transaction hash is "@
        + debug_text(transaction_hash)
}

/// Whether `e` is the error of a deployment of `transaction_hash` whose receipt
/// did not come in time: code -1 and `timeout_message`.
pub open spec fn is_timeout_error(e: ServiceError, transaction_hash: Seq<char>) -> bool {
    &&& e matches ServiceError::FiscoBcosError { code, message }
    &&& code == -1
    &&& message@ == timeout_message(transaction_hash)
}

/// What a deployment reports of its receipt: the receipt's `status`,
/// `transactionHash` and `contractAddress` members (`null` where missing).
pub open spec fn receipt_summary(receipt: Json) -> Json {
    Json::Object(
        seq![
            Member { key: "status"@, value: json_field(receipt, "status"@) },
            Member { key: "transactionHash"@, value: json_field(receipt, "transactionHash"@) },
            Member { key: "contractAddress"@, value: json_field(receipt, "contractAddress"@) },
        ],
    )
}

/// The summary of a receipt, as `receipt_summary` gives it.
pub fn summarize_receipt(receipt: &JsonValue) -> (r: JsonValue)
    ensures
        r@ == receipt_summary(receipt@),
{
    let mut members: Vec<(String, JsonValue)> = Vec::new();
    members.push((String::from_str("status"), receipt.field("status")));
    members.push((String::from_str("transactionHash"), receipt.field("transactionHash")));
    members.push((String::from_str("contractAddress"), receipt.field("contractAddress")));
    let r = object_of(members);
    assert(r@->Object_0 =~= receipt_summary(receipt@)->Object_0);
    r
}

impl Service {
    /// Starts waiting for the receipt of the deployment transaction
    /// `transaction_hash`, for the service's `timeout_seconds`. The poll first
    /// takes the time elapsed since the transaction was sent.
    pub fn deploy_poll(&self, transaction_hash: String) -> (p: DeployPoll)
        requires
            1000 * self.settings().timeout_seconds <= u64::MAX,
        ensures
            p@.transaction_hash == transaction_hash@,
            p@.receipt_request == rpc_request(
                "getTransactionReceipt"@,
                group_text_params(self.settings().group_id, transaction_hash@),
            ),
            p@.timeout_ms == 1000 * self.settings().timeout_seconds,
            p@.stage == DeployStage::ReadingClock,
    {
        let receipt_request = self.get_transaction_receipt_request(transaction_hash.as_str());
        let timeout_ms = self.timeout_millis();
        DeployPoll { transaction_hash, receipt_request, timeout_ms, stage: DeployStage::ReadingClock }
    }
}

impl DeployPoll {
    /// What the poll waits for.
    pub fn stage(&self) -> (s: DeployStage)
        ensures
            s == self@.stage,
    {
        self.stage
    }

    /// Takes `event` and says what to do next.
    ///
    /// - Reading the clock: while the elapsed time is below the timeout, fetch
    ///   the receipt; once it reaches the timeout, finish with the timeout
    ///   error.
    /// - Awaiting the receipt: a `null` reply means the node has none yet, so
    ///   sleep `RECEIPT_POLL_INTERVAL_MS` and read the clock again; any other
    ///   reply means it has one, so fetch it once more.
    /// - Awaiting the receipt once more: finish with the summary of that reply.
    /// - A failed request finishes the deployment with its error.
    pub fn step(&mut self, event: DeployEvent) -> (action: DeployAction)
        requires
            accepts(old(self)@.stage, event),
        ensures
            final(self)@.transaction_hash == old(self)@.transaction_hash,
            final(self)@.receipt_request == old(self)@.receipt_request,
            final(self)@.timeout_ms == old(self)@.timeout_ms,
            event matches DeployEvent::Elapsed(elapsed) ==> {
                if elapsed < old(self)@.timeout_ms {
                    &&& final(self)@.stage == DeployStage::AwaitingReceipt
                    &&& action matches DeployAction::Fetch(request)
                    &&& request@ == old(self)@.receipt_request
                } else {
                    &&& final(self)@.stage == DeployStage::Finished
                    &&& action matches DeployAction::Finish(Err(e))
                    &&& is_timeout_error(e, old(self)@.transaction_hash)
                }
            },
            event matches DeployEvent::Receipt(reply) ==> {
                if old(self)@.stage == DeployStage::AwaitingReceipt {
                    if reply@ is Null {
                        &&& final(self)@.stage == DeployStage::ReadingClock
                        &&& action == DeployAction::Sleep(RECEIPT_POLL_INTERVAL_MS)
                    } else {
                        &&& final(self)@.stage == DeployStage::AwaitingConfirmedReceipt
                        &&& action matches DeployAction::Fetch(request)
                        &&& request@ == old(self)@.receipt_request
                    }
                } else {
                    &&& final(self)@.stage == DeployStage::Finished
                    &&& action matches DeployAction::Finish(Ok(summary))
                    &&& summary@ == receipt_summary(reply@)
                }
            },
            event matches DeployEvent::Failed(e) ==> {
                &&& final(self)@.stage == DeployStage::Finished
                &&& action == DeployAction::Finish(Err(e))
            },
    {
        match event {
            DeployEvent::Elapsed(elapsed) => {
                if elapsed < self.timeout_ms {
                    self.stage = DeployStage::AwaitingReceipt;
                    DeployAction::Fetch(self.receipt_request.duplicate())
                } else {
                    self.stage = DeployStage::Finished;
                    let mut message = String::from_str(
                        "Contract deployed, but the action for fetching transaction receipt is timeout. Transaction hash is ",
                    );
                    let quoted = debug_quote(self.transaction_hash.as_str());
                    message.append(quoted.as_str());
                    DeployAction::Finish(Err(ServiceError::FiscoBcosError { code: -1, message }))
                }
            },
            DeployEvent::Receipt(reply) => {
                match self.stage {
                    DeployStage::AwaitingReceipt => {
                        if reply.is_null() {
                            self.stage = DeployStage::ReadingClock;
                            DeployAction::Sleep(RECEIPT_POLL_INTERVAL_MS)
                        } else {
                            self.stage = DeployStage::AwaitingConfirmedReceipt;
                            DeployAction::Fetch(self.receipt_request.duplicate())
                        }
                    },
                    _ => {
                        self.stage = DeployStage::Finished;
                        DeployAction::Finish(Ok(summarize_receipt(&reply)))
                    },
                }
            },
            DeployEvent::Failed(e) => {
                self.stage = DeployStage::Finished;
                DeployAction::Finish(Err(e))
            },
        }
    }
}

} // verus!

verus! {

/// A deployment reports the receipt's own `status`, `transactionHash` and
/// `contractAddress`, and nothing else.
pub proof fn lemma_summary_reports_receipt_members(receipt: Json)
    ensures
        receipt_summary(receipt)->Object_0.len() == 3,
        json_field(receipt_summary(receipt), "status"@) == json_field(receipt, "status"@),
        json_field(receipt_summary(receipt), "transactionHash"@) == json_field(
            receipt,
            "transactionHash"@,
        ),
        json_field(receipt_summary(receipt), "contractAddress"@) == json_field(
            receipt,
            "contractAddress"@,
        ),
{
    reveal_strlit("status");
    reveal_strlit("transactionHash");
    reveal_strlit("contractAddress");
    let members = receipt_summary(receipt)->Object_0;
    assert("status"@.len() == 6 && "transactionHash"@.len() == 15 && "contractAddress"@.len() == 15);
    assert("transactionHash"@[0] == 't' && "contractAddress"@[0] == 'c');
    assert("status"@ != "transactionHash"@ && "status"@ != "contractAddress"@);
    assert("transactionHash"@ != "contractAddress"@);
    lemma_field_finds_first_member(members, "status"@, 0);
    lemma_field_finds_first_member(members, "transactionHash"@, 1);
    lemma_field_finds_first_member(members, "contractAddress"@, 2);
}

} // verus!
