use vstd::prelude::*;
use crate::config::{Account, Config};
use crate::encoding::{prefixed_hex, to_prefixed_hex};
use crate::json::{Json, JsonValue, Member, json_field, lemma_field_finds_first_member, string_content};
use crate::helpers::{lemma_prefixed_hex_writes_every_byte, parse_json_string, writes_hex_of};
use crate::rpc::{array_of, generate_request_params, object_of, rpc_request, views};

verus! {

/// The model of a group id inside a request.
pub open spec fn group_json(group_id: u32) -> Json {
    Json::Integer(group_id as int)
}

/// The parameters `[group_id]`.
pub open spec fn group_params(group_id: u32) -> Json {
    Json::Array(seq![group_json(group_id)])
}

/// The parameters `[group_id, text]`.
pub open spec fn group_text_params(group_id: u32, text: Seq<char>) -> Json {
    Json::Array(seq![group_json(group_id), Json::String(text)])
}

/// The parameters `[group_id, text, flag]`.
pub open spec fn group_text_flag_params(group_id: u32, text: Seq<char>, flag: bool) -> Json {
    Json::Array(seq![group_json(group_id), Json::String(text), Json::Bool(flag)])
}

/// The parameters `[group_id, first, second]`.
pub open spec fn group_two_texts_params(group_id: u32, first: Seq<char>, second: Seq<char>) -> Json {
    Json::Array(seq![group_json(group_id), Json::String(first), Json::String(second)])
}

/// The parameters `[group_id, block, from, count, compress_flag]` of a batch of
/// receipts.
pub open spec fn batch_params(
    group_id: u32,
    block: Seq<char>,
    from: u32,
    count: i32,
    compress_flag: bool,
) -> Json {
    Json::Array(
        seq![
            group_json(group_id),
            Json::String(block),
            Json::Integer(from as int),
            Json::Integer(count as int),
            Json::Bool(compress_flag),
        ],
    )
}

/// A client of a FISCO BCOS node: it builds the JSON-RPC requests that its
/// settings call for and reads the node's replies.
pub struct Service {
    pub config: Config,
    account: Account,
}

impl Service {
    /// The settings of the service.
    pub closed spec fn settings(&self) -> Config {
        self.config
    }

    /// The account the service signs with.
    pub closed spec fn signer(&self) -> Account {
        self.account
    }

    /// A service with a copy of `config` that signs with `account`.
    pub fn new(config: &Config, account: Account) -> (s: Service)
        ensures
            s.settings() == *config,
            s.signer() == account,
    {
        Service { config: config.copy(), account }
    }

    /// The account the service signs with.
    pub fn account(&self) -> (r: &Account)
        ensures
            *r == self.signer(),
    {
        &self.account
    }

    /// How long `deploy` waits for the receipt of its transaction, in
    /// milliseconds.
    pub fn timeout_millis(&self) -> (r: u128)
        requires
            1000 * self.settings().timeout_seconds <= u64::MAX,
        ensures
            r == 1000 * self.settings().timeout_seconds,
    {
        (1000 * self.config.timeout_seconds) as u128
    }

    fn group_value(&self) -> (r: JsonValue)
        ensures
            r@ == group_json(self.settings().group_id),
    {
        JsonValue::Integer(self.config.group_id as i128)
    }

    fn group_request(&self, method: &str) -> (r: JsonValue)
        ensures
            r@ == rpc_request(method@, group_params(self.settings().group_id)),
    {
        let mut items: Vec<JsonValue> = Vec::new();
        items.push(self.group_value());
        let params = array_of(items);
        assert(params@ == group_params(self.settings().group_id)) by {
            assert(views(items@) =~= seq![group_json(self.settings().group_id)]);
        }
        generate_request_params(method, &params)
    }

    fn group_text_request(&self, method: &str, text: &str) -> (r: JsonValue)
        ensures
            r@ == rpc_request(method@, group_text_params(self.settings().group_id, text@)),
    {
        let mut items: Vec<JsonValue> = Vec::new();
        items.push(self.group_value());
        items.push(JsonValue::string(text));
        let params = array_of(items);
        assert(params@ == group_text_params(self.settings().group_id, text@)) by {
            assert(views(items@) =~= seq![group_json(self.settings().group_id), Json::String(text@)]);
        }
        generate_request_params(method, &params)
    }

    fn group_text_flag_request(&self, method: &str, text: &str, flag: bool) -> (r: JsonValue)
        ensures
            r@ == rpc_request(method@, group_text_flag_params(self.settings().group_id, text@, flag)),
    {
        let mut items: Vec<JsonValue> = Vec::new();
        items.push(self.group_value());
        items.push(JsonValue::string(text));
        items.push(JsonValue::Bool(flag));
        let params = array_of(items);
        assert(params@ == group_text_flag_params(self.settings().group_id, text@, flag)) by {
            assert(views(items@) =~= seq![
                group_json(self.settings().group_id),
                Json::String(text@),
                Json::Bool(flag),
            ]);
        }
        generate_request_params(method, &params)
    }

    fn group_two_texts_request(&self, method: &str, first: &str, second: &str) -> (r: JsonValue)
        ensures
            r@ == rpc_request(
                method@,
                group_two_texts_params(self.settings().group_id, first@, second@),
            ),
    {
        let mut items: Vec<JsonValue> = Vec::new();
        items.push(self.group_value());
        items.push(JsonValue::string(first));
        items.push(JsonValue::string(second));
        let params = array_of(items);
        assert(params@ == group_two_texts_params(self.settings().group_id, first@, second@)) by {
            assert(views(items@) =~= seq![
                group_json(self.settings().group_id),
                Json::String(first@),
                Json::String(second@),
            ]);
        }
        generate_request_params(method, &params)
    }

    fn batch_request(
        &self,
        method: &str,
        block: &str,
        from: u32,
        count: i32,
        compress_flag: bool,
    ) -> (r: JsonValue)
        ensures
            r@ == rpc_request(
                method@,
                batch_params(self.settings().group_id, block@, from, count, compress_flag),
            ),
    {
        let mut items: Vec<JsonValue> = Vec::new();
        items.push(self.group_value());
        items.push(JsonValue::string(block));
        items.push(JsonValue::Integer(from as i128));
        items.push(JsonValue::Integer(count as i128));
        items.push(JsonValue::Bool(compress_flag));
        let params = array_of(items);
        assert(params@ == batch_params(self.settings().group_id, block@, from, count, compress_flag))
            by {
            assert(views(items@) =~= seq![
                group_json(self.settings().group_id),
                Json::String(block@),
                Json::Integer(from as int),
                Json::Integer(count as int),
                Json::Bool(compress_flag),
            ]);
        }
        generate_request_params(method, &params)
    }
}

impl Service {
    /// The request behind `get_client_version`: `getClientVersion` for the service's group.
    pub fn get_client_version_request(&self) -> (r: JsonValue)
        ensures
            r@ == rpc_request("getClientVersion"@, group_params(self.settings().group_id)),
    {
        self.group_request("getClientVersion")
    }

    /// The request behind `get_block_number`: `getBlockNumber` for the service's group.
    pub fn get_block_number_request(&self) -> (r: JsonValue)
        ensures
            r@ == rpc_request("getBlockNumber"@, group_params(self.settings().group_id)),
    {
        self.group_request("getBlockNumber")
    }

    /// The request behind `get_pbft_view`: `getPbftView` for the service's group.
    pub fn get_pbft_view_request(&self) -> (r: JsonValue)
        ensures
            r@ == rpc_request("getPbftView"@, group_params(self.settings().group_id)),
    {
        self.group_request("getPbftView")
    }

    /// The request behind `get_sealer_list`: `getSealerList` for the service's group.
    pub fn get_sealer_list_request(&self) -> (r: JsonValue)
        ensures
            r@ == rpc_request("getSealerList"@, group_params(self.settings().group_id)),
    {
        self.group_request("getSealerList")
    }

    /// The request behind `get_observer_list`: `getObserverList` for the service's group.
    pub fn get_observer_list_request(&self) -> (r: JsonValue)
        ensures
            r@ == rpc_request("getObserverList"@, group_params(self.settings().group_id)),
    {
        self.group_request("getObserverList")
    }

    /// The request behind `get_consensus_status`: `getConsensusStatus` for the service's group.
    pub fn get_consensus_status_request(&self) -> (r: JsonValue)
        ensures
            r@ == rpc_request("getConsensusStatus"@, group_params(self.settings().group_id)),
    {
        self.group_request("getConsensusStatus")
    }

    /// The request behind `get_sync_status`: `getSyncStatus` for the service's group.
    pub fn get_sync_status_request(&self) -> (r: JsonValue)
        ensures
            r@ == rpc_request("getSyncStatus"@, group_params(self.settings().group_id)),
    {
        self.group_request("getSyncStatus")
    }

    /// The request behind `get_peers`: `getPeers` for the service's group.
    pub fn get_peers_request(&self) -> (r: JsonValue)
        ensures
            r@ == rpc_request("getPeers"@, group_params(self.settings().group_id)),
    {
        self.group_request("getPeers")
    }

    /// The request behind `get_group_peers`: `getGroupPeers` for the service's group.
    pub fn get_group_peers_request(&self) -> (r: JsonValue)
        ensures
            r@ == rpc_request("getGroupPeers"@, group_params(self.settings().group_id)),
    {
        self.group_request("getGroupPeers")
    }

    /// The request behind `get_node_id_list`: `getNodeIDList` for the service's group.
    pub fn get_node_id_list_request(&self) -> (r: JsonValue)
        ensures
            r@ == rpc_request("getNodeIDList"@, group_params(self.settings().group_id)),
    {
        self.group_request("getNodeIDList")
    }

    /// The request behind `get_pending_transactions`: `getPendingTransactions` for the service's group.
    pub fn get_pending_transactions_request(&self) -> (r: JsonValue)
        ensures
            r@ == rpc_request("getPendingTransactions"@, group_params(self.settings().group_id)),
    {
        self.group_request("getPendingTransactions")
    }

    /// The request behind `get_pending_tx_size`: `getPendingTxSize` for the service's group.
    pub fn get_pending_tx_size_request(&self) -> (r: JsonValue)
        ensures
            r@ == rpc_request("getPendingTxSize"@, group_params(self.settings().group_id)),
    {
        self.group_request("getPendingTxSize")
    }

    /// The request behind `get_total_transaction_count`: `getTotalTransactionCount` for the service's group.
    pub fn get_total_transaction_count_request(&self) -> (r: JsonValue)
        ensures
            r@ == rpc_request("getTotalTransactionCount"@, group_params(self.settings().group_id)),
    {
        self.group_request("getTotalTransactionCount")
    }

    /// The request behind `start_group`: `startGroup` for the service's group.
    pub fn start_group_request(&self) -> (r: JsonValue)
        ensures
            r@ == rpc_request("startGroup"@, group_params(self.settings().group_id)),
    {
        self.group_request("startGroup")
    }

    /// The request behind `stop_group`: `stopGroup` for the service's group.
    pub fn stop_group_request(&self) -> (r: JsonValue)
        ensures
            r@ == rpc_request("stopGroup"@, group_params(self.settings().group_id)),
    {
        self.group_request("stopGroup")
    }

    /// The request behind `remove_group`: `removeGroup` for the service's group.
    pub fn remove_group_request(&self) -> (r: JsonValue)
        ensures
            r@ == rpc_request("removeGroup"@, group_params(self.settings().group_id)),
    {
        self.group_request("removeGroup")
    }

    /// The request behind `recover_group`: `recoverGroup` for the service's group.
    pub fn recover_group_request(&self) -> (r: JsonValue)
        ensures
            r@ == rpc_request("recoverGroup"@, group_params(self.settings().group_id)),
    {
        self.group_request("recoverGroup")
    }

    /// The request behind `query_group_status`: `queryGroupStatus` for the service's group.
    pub fn query_group_status_request(&self) -> (r: JsonValue)
        ensures
            r@ == rpc_request("queryGroupStatus"@, group_params(self.settings().group_id)),
    {
        self.group_request("queryGroupStatus")
    }

    /// The request behind `get_block_hash_by_number`: `getBlockHashByNumber` for the service's group and `block_number`.
    pub fn get_block_hash_by_number_request(&self, block_number: &str) -> (r: JsonValue)
        ensures
            r@ == rpc_request("getBlockHashByNumber"@, group_text_params(self.settings().group_id, block_number@)),
    {
        self.group_text_request("getBlockHashByNumber", block_number)
    }

    /// The request behind `get_transaction_by_hash`: `getTransactionByHash` for the service's group and `transaction_hash`.
    pub fn get_transaction_by_hash_request(&self, transaction_hash: &str) -> (r: JsonValue)
        ensures
            r@ == rpc_request("getTransactionByHash"@, group_text_params(self.settings().group_id, transaction_hash@)),
    {
        self.group_text_request("getTransactionByHash", transaction_hash)
    }

    /// The request behind `get_transaction_receipt`: `getTransactionReceipt` for the service's group and `transaction_hash`.
    pub fn get_transaction_receipt_request(&self, transaction_hash: &str) -> (r: JsonValue)
        ensures
            r@ == rpc_request("getTransactionReceipt"@, group_text_params(self.settings().group_id, transaction_hash@)),
    {
        self.group_text_request("getTransactionReceipt", transaction_hash)
    }

    /// The request behind `get_code`: `getCode` for the service's group and `address`.
    pub fn get_code_request(&self, address: &str) -> (r: JsonValue)
        ensures
            r@ == rpc_request("getCode"@, group_text_params(self.settings().group_id, address@)),
    {
        self.group_text_request("getCode", address)
    }

    /// The request behind `get_system_config_by_key`: `getSystemConfigByKey` for the service's group and `key`.
    pub fn get_system_config_by_key_request(&self, key: &str) -> (r: JsonValue)
        ensures
            r@ == rpc_request("getSystemConfigByKey"@, group_text_params(self.settings().group_id, key@)),
    {
        self.group_text_request("getSystemConfigByKey", key)
    }

    /// The request behind `get_transaction_by_hash_with_proof`: `getTransactionByHashWithProof` for the service's group and `transaction_hash`.
    pub fn get_transaction_by_hash_with_proof_request(&self, transaction_hash: &str) -> (r: JsonValue)
        ensures
            r@ == rpc_request("getTransactionByHashWithProof"@, group_text_params(self.settings().group_id, transaction_hash@)),
    {
        self.group_text_request("getTransactionByHashWithProof", transaction_hash)
    }

    /// The request behind `get_transaction_receipt_by_hash_with_proof`: `getTransactionReceiptByHashWithProof` for the service's group and `transaction_hash`.
    pub fn get_transaction_receipt_by_hash_with_proof_request(&self, transaction_hash: &str) -> (r: JsonValue)
        ensures
            r@ == rpc_request("getTransactionReceiptByHashWithProof"@, group_text_params(self.settings().group_id, transaction_hash@)),
    {
        self.group_text_request("getTransactionReceiptByHashWithProof", transaction_hash)
    }

    /// The request behind `get_block_by_hash`: `getBlockByHash` for the service's group, `block_hash` and
    /// whether to include the transactions.
    pub fn get_block_by_hash_request(&self, block_hash: &str, include_transactions: bool) -> (r: JsonValue)
        ensures
            r@ == rpc_request(
                "getBlockByHash"@,
                group_text_flag_params(self.settings().group_id, block_hash@, include_transactions),
            ),
    {
        self.group_text_flag_request("getBlockByHash", block_hash, include_transactions)
    }

    /// The request behind `get_block_by_number`: `getBlockByNumber` for the service's group, `block_number` and
    /// whether to include the transactions.
    pub fn get_block_by_number_request(&self, block_number: &str, include_transactions: bool) -> (r: JsonValue)
        ensures
            r@ == rpc_request(
                "getBlockByNumber"@,
                group_text_flag_params(self.settings().group_id, block_number@, include_transactions),
            ),
    {
        self.group_text_flag_request("getBlockByNumber", block_number, include_transactions)
    }

    /// The request behind `get_block_header_by_hash`: `getBlockHeaderByHash` for the service's group, `block_hash` and
    /// whether to include the transactions.
    pub fn get_block_header_by_hash_request(&self, block_hash: &str, include_transactions: bool) -> (r: JsonValue)
        ensures
            r@ == rpc_request(
                "getBlockHeaderByHash"@,
                group_text_flag_params(self.settings().group_id, block_hash@, include_transactions),
            ),
    {
        self.group_text_flag_request("getBlockHeaderByHash", block_hash, include_transactions)
    }

    /// The request behind `get_block_header_by_number`: `getBlockHeaderByNumber` for the service's group, `block_number` and
    /// whether to include the transactions.
    pub fn get_block_header_by_number_request(&self, block_number: &str, include_transactions: bool) -> (r: JsonValue)
        ensures
            r@ == rpc_request(
                "getBlockHeaderByNumber"@,
                group_text_flag_params(self.settings().group_id, block_number@, include_transactions),
            ),
    {
        self.group_text_flag_request("getBlockHeaderByNumber", block_number, include_transactions)
    }

    /// The request behind `get_transaction_by_block_hash_and_index`: `getTransactionByBlockHashAndIndex` for the service's group, `block_hash` and
    /// `transaction_index`.
    pub fn get_transaction_by_block_hash_and_index_request(&self, block_hash: &str, transaction_index: &str) -> (r: JsonValue)
        ensures
            r@ == rpc_request(
                "getTransactionByBlockHashAndIndex"@,
                group_two_texts_params(self.settings().group_id, block_hash@, transaction_index@),
            ),
    {
        self.group_two_texts_request("getTransactionByBlockHashAndIndex", block_hash, transaction_index)
    }

    /// The request behind `get_transaction_by_block_number_and_index`: `getTransactionByBlockNumberAndIndex` for the service's group, `block_number` and
    /// `transaction_index`.
    pub fn get_transaction_by_block_number_and_index_request(&self, block_number: &str, transaction_index: &str) -> (r: JsonValue)
        ensures
            r@ == rpc_request(
                "getTransactionByBlockNumberAndIndex"@,
                group_two_texts_params(self.settings().group_id, block_number@, transaction_index@),
            ),
    {
        self.group_two_texts_request("getTransactionByBlockNumberAndIndex", block_number, transaction_index)
    }

    /// The request behind `get_batch_receipts_by_block_number_and_range`: `getBatchReceiptsByBlockNumberAndRange` for the service's group, `block_number`, the
    /// range `from`/`count` and the compression flag.
    pub fn get_batch_receipts_by_block_number_and_range_request(
        &self,
        block_number: &str,
        from: u32,
        count: i32,
        compress_flag: bool,
    ) -> (r: JsonValue)
        ensures
            r@ == rpc_request(
                "getBatchReceiptsByBlockNumberAndRange"@,
                batch_params(self.settings().group_id, block_number@, from, count, compress_flag),
            ),
    {
        self.batch_request("getBatchReceiptsByBlockNumberAndRange", block_number, from, count, compress_flag)
    }

    /// The request behind `get_batch_receipts_by_block_hash_and_range`: `getBatchReceiptsByBlockHashAndRange` for the service's group, `block_hash`, the
    /// range `from`/`count` and the compression flag.
    pub fn get_batch_receipts_by_block_hash_and_range_request(
        &self,
        block_hash: &str,
        from: u32,
        count: i32,
        compress_flag: bool,
    ) -> (r: JsonValue)
        ensures
            r@ == rpc_request(
                "getBatchReceiptsByBlockHashAndRange"@,
                batch_params(self.settings().group_id, block_hash@, from, count, compress_flag),
            ),
    {
        self.batch_request("getBatchReceiptsByBlockHashAndRange", block_hash, from, count, compress_flag)
    }

    /// The request behind `get_group_list`: `getGroupList`, whose parameters are `null`.
    pub fn get_group_list_request(&self) -> (r: JsonValue)
        ensures
            r@ == rpc_request("getGroupList"@, Json::Null),
    {
        generate_request_params("getGroupList", &JsonValue::Null)
    }

    /// The request behind `get_node_info`: `getNodeInfo`, whose parameters are `null`.
    pub fn get_node_info_request(&self) -> (r: JsonValue)
        ensures
            r@ == rpc_request("getNodeInfo"@, Json::Null),
    {
        generate_request_params("getNodeInfo", &JsonValue::Null)
    }

    /// The request behind `generate_group`: `generateGroup` for the service's
    /// group, with (a copy of) the group's parameters `params`.
    pub fn generate_group_request(&self, params: &JsonValue) -> (r: JsonValue)
        ensures
            r@ == rpc_request(
                "generateGroup"@,
                Json::Array(seq![group_json(self.settings().group_id), params@]),
            ),
    {
        let mut items: Vec<JsonValue> = Vec::new();
        items.push(self.group_value());
        items.push(params.duplicate());
        let request_params = array_of(items);
        assert(views(items@) =~= seq![group_json(self.settings().group_id), params@]);
        generate_request_params("generateGroup", &request_params)
    }
}


/// The call object of a read-only contract call: who calls (`from`), the
/// contract (`to`), no value, and the encoded input (`data`).
pub open spec fn call_object(from: Seq<u8>, to: Seq<char>, data: Seq<u8>) -> Json {
    Json::Object(
        seq![
            Member { key: "from"@, value: Json::String(prefixed_hex(from)) },
            Member { key: "to"@, value: Json::String(to) },
            Member { key: "value"@, value: Json::String("0x0"@) },
            Member { key: "data"@, value: Json::String(prefixed_hex(data)) },
        ],
    )
}

/// The parameters `[group_id, "0x<signed transaction in hex>"]`.
pub open spec fn signed_transaction_params(group_id: u32, signed: Seq<u8>) -> Json {
    Json::Array(seq![group_json(group_id), Json::String(prefixed_hex(signed))])
}

/// How many blocks past the current one a new transaction stays valid.
pub const BLOCK_LIMIT_MARGIN: u32 = 500;

/// What a transaction is signed with, besides the account, its target and its
/// encoded input.
pub struct TransactionFields {
    pub group_id: u32,
    pub chain_id: u32,
    /// The last block in which the transaction may be included.
    pub block_limit: u32,
    pub sm_crypto: bool,
}

/// What the node answers to a read-only contract call, with the output still
/// in its hexadecimal text.
pub struct CallReply {
    pub current_block_number: String,
    pub status: String,
    pub output: String,
}

/// The elements of a `getPeers` reply, which must be an array.
pub fn peers_from_response(response: JsonValue) -> (r: Vec<JsonValue>)
    requires
        response is Array,
    ensures
        response == JsonValue::Array(r),
{
    match response {
        JsonValue::Array(items) => items,
        _ => Vec::new(),
    }
}

/// Reads the reply to a read-only contract call: its `status`,
/// `currentBlockNumber` and `output` members, each read as a string.
pub fn call_reply(response: &JsonValue) -> (r: CallReply)
    ensures
        r.status@ == string_content(json_field(response@, "status"@)),
        r.current_block_number@ == string_content(json_field(response@, "currentBlockNumber"@)),
        r.output@ == string_content(json_field(response@, "output"@)),
{
    CallReply {
        status: parse_json_string(&response.field("status")),
        current_block_number: parse_json_string(&response.field("currentBlockNumber")),
        output: parse_json_string(&response.field("output")),
    }
}

impl Service {
    /// The request behind `call`: `call` for the service's group, from the
    /// service's account to `to_address`, with the encoded input
    /// `transaction_data`.
    pub fn call_request(&self, to_address: &str, transaction_data: &[u8]) -> (r: JsonValue)
        ensures
            r@ == rpc_request(
                "call"@,
                Json::Array(
                    seq![
                        group_json(self.settings().group_id),
                        call_object(self.signer().address@, to_address@, transaction_data@),
                    ],
                ),
            ),
    {
        let mut members: Vec<(String, JsonValue)> = Vec::new();
        members.push(
            (String::from_str("from"), JsonValue::String(to_prefixed_hex(self.account.address.as_slice()))),
        );
        members.push((String::from_str("to"), JsonValue::string(to_address)));
        members.push((String::from_str("value"), JsonValue::string("0x0")));
        members.push((String::from_str("data"), JsonValue::String(to_prefixed_hex(transaction_data))));
        let call = object_of(members);
        assert(call@ == call_object(self.signer().address@, to_address@, transaction_data@)) by {
            assert(call@->Object_0 =~= call_object(self.signer().address@, to_address@, transaction_data@)->Object_0);
        }
        let mut items: Vec<JsonValue> = Vec::new();
        items.push(self.group_value());
        items.push(call);
        let params = array_of(items);
        assert(views(items@) =~= seq![
            group_json(self.settings().group_id),
            call_object(self.signer().address@, to_address@, transaction_data@),
        ]);
        generate_request_params("call", &params)
    }

    /// What a transaction built now is signed with: the service's group and
    /// chain, its cryptography suite, and a block limit `BLOCK_LIMIT_MARGIN`
    /// blocks past `block_number`, the current block.
    pub fn transaction_fields(&self, block_number: u32) -> (r: TransactionFields)
        requires
            block_number + BLOCK_LIMIT_MARGIN <= u32::MAX,
        ensures
            r.group_id == self.settings().group_id,
            r.chain_id == self.settings().chain_id,
            r.block_limit == block_number + BLOCK_LIMIT_MARGIN,
            r.sm_crypto == self.settings().sm_crypto,
    {
        TransactionFields {
            group_id: self.config.group_id,
            chain_id: self.config.chain_id,
            block_limit: block_number + BLOCK_LIMIT_MARGIN,
            sm_crypto: self.config.sm_crypto,
        }
    }

    fn signed_transaction_request(&self, method: &str, signed_transaction: &[u8]) -> (r: JsonValue)
        ensures
            r@ == rpc_request(
                method@,
                signed_transaction_params(self.settings().group_id, signed_transaction@),
            ),
    {
        let mut items: Vec<JsonValue> = Vec::new();
        items.push(self.group_value());
        items.push(JsonValue::String(to_prefixed_hex(signed_transaction)));
        let params = array_of(items);
        assert(views(items@) =~= seq![
            group_json(self.settings().group_id),
            Json::String(prefixed_hex(signed_transaction@)),
        ]);
        generate_request_params(method, &params)
    }

    /// The request behind `send_raw_transaction`: `sendRawTransaction` with the
    /// signed transaction.
    pub fn send_raw_transaction_request(&self, signed_transaction: &[u8]) -> (r: JsonValue)
        ensures
            r@ == rpc_request(
                "sendRawTransaction"@,
                signed_transaction_params(self.settings().group_id, signed_transaction@),
            ),
    {
        self.signed_transaction_request("sendRawTransaction", signed_transaction)
    }

    /// The request behind `send_raw_transaction_and_get_proof` and `deploy`:
    /// `sendRawTransactionAndGetProof` with the signed transaction.
    pub fn send_raw_transaction_and_get_proof_request(&self, signed_transaction: &[u8]) -> (r:
        JsonValue)
        ensures
            r@ == rpc_request(
                "sendRawTransactionAndGetProof"@,
                signed_transaction_params(self.settings().group_id, signed_transaction@),
            ),
    {
        self.signed_transaction_request("sendRawTransactionAndGetProof", signed_transaction)
    }
}

} // verus!

verus! {

/// A read-only call sends all of its input and the caller's whole address:
/// `data` holds every byte of `data` and `from` every byte of `from`, each as
/// `0x` and two lowercase digits per byte; `to` is the contract and `value`
/// is `0x0`.
pub proof fn lemma_call_object_holds_whole_input(from: Seq<u8>, to: Seq<char>, data: Seq<u8>)
    ensures
        json_field(call_object(from, to, data), "data"@) is String,
        writes_hex_of(json_field(call_object(from, to, data), "data"@)->String_0, data),
        json_field(call_object(from, to, data), "from"@) is String,
        writes_hex_of(json_field(call_object(from, to, data), "from"@)->String_0, from),
        json_field(call_object(from, to, data), "to"@) == Json::String(to),
        json_field(call_object(from, to, data), "value"@) == Json::String("0x0"@),
{
    reveal_strlit("from");
    reveal_strlit("to");
    reveal_strlit("value");
    reveal_strlit("data");
    let members = call_object(from, to, data)->Object_0;
    assert("from"@.len() == 4 && "to"@.len() == 2 && "value"@.len() == 5 && "data"@.len() == 4);
    assert("from"@[0] == 'f' && "data"@[0] == 'd');
    assert("from"@ != "to"@ && "from"@ != "value"@ && "from"@ != "data"@);
    assert("to"@ != "value"@ && "to"@ != "data"@ && "value"@ != "data"@);
    lemma_field_finds_first_member(members, "from"@, 0);
    lemma_field_finds_first_member(members, "to"@, 1);
    lemma_field_finds_first_member(members, "value"@, 2);
    lemma_field_finds_first_member(members, "data"@, 3);
    lemma_prefixed_hex_writes_every_byte(data);
    lemma_prefixed_hex_writes_every_byte(from);
}

/// A signed transaction is sent whole: the parameters are the group id and
/// `0x` followed by two lowercase digits for every byte of the transaction.
pub proof fn lemma_signed_transaction_sent_whole(group_id: u32, signed: Seq<u8>)
    ensures
        signed_transaction_params(group_id, signed)->Array_0.len() == 2,
        signed_transaction_params(group_id, signed)->Array_0[0] == Json::Integer(group_id as int),
        signed_transaction_params(group_id, signed)->Array_0[1] is String,
        writes_hex_of(signed_transaction_params(group_id, signed)->Array_0[1]->String_0, signed),
{
    lemma_prefixed_hex_writes_every_byte(signed);
}

} // verus!

verus! {

/// The parameters of each kind of request hold, in order, the group id and
/// then exactly the arguments the request was built from.
pub proof fn lemma_params_hold_group_then_arguments(
    group_id: u32,
    first: Seq<char>,
    second: Seq<char>,
    flag: bool,
    from: u32,
    count: i32,
)
    ensures
        group_params(group_id)->Array_0 =~= seq![Json::Integer(group_id as int)],
        group_text_params(group_id, first)->Array_0 =~= seq![
            Json::Integer(group_id as int),
            Json::String(first),
        ],
        group_text_flag_params(group_id, first, flag)->Array_0 =~= seq![
            Json::Integer(group_id as int),
            Json::String(first),
            Json::Bool(flag),
        ],
        group_two_texts_params(group_id, first, second)->Array_0 =~= seq![
            Json::Integer(group_id as int),
            Json::String(first),
            Json::String(second),
        ],
        batch_params(group_id, first, from, count, flag)->Array_0 =~= seq![
            Json::Integer(group_id as int),
            Json::String(first),
            Json::Integer(from as int),
            Json::Integer(count as int),
            Json::Bool(flag),
        ],
{
}

} // verus!
