//! What trading commands ask for, how they are signed, and what becomes of them.

use crate::command_worker::{ActionView, PhaseView, WorkerEvent, WorkerView};
use crate::config::ConfigView;
use crate::json::{
    json_get, json_of_text, json_text, member, members_are_found_by_name, names_in_order,
    upper_members_count, JsonView,
};
use crate::order_payload::{
    payload_members, CancelOrderPayload, CreateOrderPayload, EditOrderPayload, Payload,
};
use crate::signing::{
    base58_bytes, base58_text, byte_list, ed25519_public_key, ed25519_signature, keypair_bytes,
    public_key_of, seed_of, signed_text, signer_of, SignedActionView, SignerView, SigningErrorView,
};
use crate::text::{lex_less, trimmed, trimmed_start};
use crate::trade_stream::{
    all_failed, answer_in, answered_id, client_of, lists_replies, one_reply, redacted,
    redacted_text, says_pong, TradeClientView, TradeErrorView,
};
use crate::ws_trade::{
    action_named, command, trade_response, trade_response_of, CancelAllOrdersPayload,
    CreateMarketOrderPayload, ProtocolErrorView, RawTradeResponse, RawTradeResponseView,
    WsTradeAction,
};
use vstd::prelude::*;
use vstd::utf8::encode_utf8;

verus! {

/// A message says that the exchange is alive where its channel is the text `pong`.
pub proof fn pong_is_a_channel(text: Seq<char>)
    ensures
        says_pong(text) <==> (json_of_text(text) is Ok && json_get(
            json_of_text(text)->Ok_0,
            "channel"@,
        ) == Some(JsonView::Text("pong"@))),
{
}

/// The identifier of the command that a message answers is the text under the name `id`.
pub proof fn answers_bear_the_identifier(text: Seq<char>, id: Seq<char>)
    ensures
        answered_id(text) == Some(id) <==> (json_of_text(text) is Ok && json_get(
            json_of_text(text)->Ok_0,
            "id"@,
        ) == Some(JsonView::Text(id))),
{
}

/// An answer is a success where it bears the code 200, no error, an identifier, which is the
/// expected one where one is expected, and a kind, whatever kind it is. The first thing that is
/// wrong is told.
pub proof fn answers_are_read_in_full(frame: RawTradeResponseView, expected: Option<Seq<char>>)
    ensures
        ({
            let result = trade_response(frame, expected);
            let refused = !(frame.code matches Some(code) && code == 200) || frame.error is Some;
            let other = expected is Some && frame.id is Some && expected->0 != frame.id->0;
            &&& result is Ok <==> !refused && frame.id is Some && !other && frame.command_type
                is Some
            &&& result matches Ok(response) ==> {
                &&& Some(response.request_id) == frame.id
                &&& Some(response.command_type) == frame.command_type
                &&& response.code == 200
                &&& response.data == (match frame.data {
                    Some(data) => data,
                    None => JsonView::Null,
                })
                &&& response.timestamp_ms == frame.timestamp_ms
            }
            &&& result matches Err(error) ==> error == if refused {
                ProtocolErrorView::Command { code: frame.code, error: frame.error }
            } else if frame.id is None {
                ProtocolErrorView::MissingRequestId
            } else if other {
                ProtocolErrorView::RequestIdMismatch { expected: expected->0, actual: frame.id->0 }
            } else {
                ProtocolErrorView::MissingCommandType
            }
        }),
{
}

/// An answer that could not be read is an error of its own; what is said of one that was read is
/// what stands in it.
pub proof fn unreadable_answers_are_told(
    frame: Result<RawTradeResponse, String>,
    expected: Option<Seq<char>>,
)
    ensures
        frame matches Err(error) ==> trade_response_of(frame, expected) matches Err(said) && said
            == ProtocolErrorView::Json(error@),
        frame matches Ok(raw) ==> {
            &&& trade_response_of(frame, expected) == trade_response(raw@, expected)
            &&& raw@.code == raw.code
            &&& raw@.data == raw.data.deep_view()
            &&& raw@.error == raw.error.deep_view()
            &&& raw@.id == raw.id.deep_view()
            &&& raw@.timestamp_ms == raw.timestamp_ms
            &&& raw@.command_type == raw.command_type.deep_view()
        },
{
}

/// Every answer reaches the command that it is for. A success whose identifier is waited for
/// answers that command with success, whatever its kind. Any other answer whose identifier is
/// waited for answers that command with the failure: where the exchange refused the command, with
/// the whole answer, its signatures covered, and otherwise with what is wrong in the answer. Signs
/// of life, and answers to commands that nobody waits for, answer nothing.
pub proof fn every_answer_reaches_its_command(
    text: Seq<char>,
    frame: Result<RawTradeResponse, String>,
    pending: Set<Seq<char>>,
)
    ensures
        ({
            let answer = answer_in(text, frame, pending);
            let read = trade_response_of(frame, None);
            let id = answered_id(text);
            &&& says_pong(text) ==> answer is None
            &&& !says_pong(text) && read is Ok && pending.contains(read->Ok_0.request_id)
                ==> answer == Some((read->Ok_0.request_id, Ok::<(), TradeErrorView>(())))
            &&& !says_pong(text) && read is Ok && !pending.contains(read->Ok_0.request_id)
                ==> answer is None
            &&& !says_pong(text) && read is Err && id is Some && pending.contains(id->0)
                ==> answer == Some(
                (
                    id->0,
                    Err::<(), TradeErrorView>(
                        if read->Err_0 is Command {
                            TradeErrorView::Order(redacted_text(text))
                        } else {
                            TradeErrorView::WsProtocol(read->Err_0)
                        },
                    ),
                ),
            )
            &&& !says_pong(text) && read is Err && !(id is Some && pending.contains(id->0))
                ==> answer is None
        }),
{
}

/// Covering the signatures keeps the form of a value: arrays keep their items and objects their
/// members, each covered in turn, and everything else stays. Only what stands under the name
/// `signature` is replaced.
pub proof fn covering_keeps_the_form(value: JsonView)
    ensures
        !(value is Array) && !(value is Object) ==> redacted(value) == value,
        value matches JsonView::Array(items) ==> (redacted(value) matches JsonView::Array(after)
            && after.len() == items.len() && forall|i: int|
            0 <= i < items.len() ==> #[trigger] after[i] == redacted(items[i])),
        value matches JsonView::Object(members) ==> (redacted(value) matches JsonView::Object(
            after,
        ) && after.len() == members.len() && forall|i: int|
            0 <= i < members.len() ==> {
                &&& (#[trigger] after[i]).0 == members[i].0
                &&& members[i].0 != "signature"@ ==> after[i].1 == redacted(members[i].1)
                &&& members[i].0 == "signature"@ ==> after[i].1 == JsonView::Text("<REDACTED>"@)
            }),
{
}

/// The words of a refused command are the answer with its signatures covered, or the text itself
/// where it cannot be read.
pub proof fn refused_commands_are_told_in_full(text: Seq<char>)
    ensures
        json_of_text(text) matches Ok(value) ==> redacted_text(text) == json_text(redacted(value)),
        json_of_text(text) is Err ==> redacted_text(text) == text,
{
}

/// A list of replies holds one reply for each command that is answered, the one to that command,
/// and no others.
pub proof fn every_reply_is_listed_once(
    list: Seq<(Seq<char>, Result<(), TradeErrorView>)>,
    replies: Map<Seq<char>, Result<(), TradeErrorView>>,
    id: Seq<char>,
)
    requires
        lists_replies(list, replies),
    ensures
        replies.contains_key(id) <==> exists|i: int|
            0 <= i < list.len() && (#[trigger] list[i]).0 == id,
        forall|i: int|
            0 <= i < list.len() && (#[trigger] list[i]).0 == id ==> list[i].1 == replies[id],
        forall|i: int, j: int|
            #![trigger list[i], list[j]]
            0 <= i < list.len() && 0 <= j < list.len() && list[i].0 == id && list[j].0 == id ==> i
                == j,
{
    if replies.contains_key(id) {
        let i = choose|i: int| 0 <= i < list.len() && #[trigger] list[i].0 == id;
        assert(list[i].0 == id);
    }
    assert forall|i: int| 0 <= i < list.len() && (#[trigger] list[i]).0 == id implies list[i].1
        == replies[id] by {
        assert(replies.contains_key(list[i].0));
    }
}

/// Where commands fail together, each of them fails with the same words; where one is answered, it
/// alone is.
pub proof fn failing_together_is_failing_each(
    ids: Set<Seq<char>>,
    message: Seq<char>,
    id: Seq<char>,
    result: Result<(), TradeErrorView>,
    other: Seq<char>,
)
    ensures
        all_failed(ids, message).contains_key(id) <==> ids.contains(id),
        ids.contains(id) ==> all_failed(ids, message)[id] == Err::<(), TradeErrorView>(
            TradeErrorView::Order(message),
        ),
        one_reply(id, result).contains_key(other) <==> other == id,
        one_reply(id, result)[id] == result,
{
}

/// The client takes its addresses, its account and its key from the settings.
pub proof fn the_client_follows_the_settings(config: ConfigView)
    ensures
        client_of(config).trade_url == config.trade_url,
        client_of(config).account == config.account,
        client_of(config).private_key_file == config.private_key_file,
        client_of(config).expiry_window == 5000,
        client_of(config).order_timeout_ms == 10_000,
{
}

/// The bytes of a key in its file: a list of bytes where the text starts with a bracket, and
/// otherwise Base58, without white space around it.
pub open spec fn file_key(text: Seq<char>) -> Result<Seq<u8>, SigningErrorView> {
    let key = trimmed(text);
    if key.len() > 0 && key[0] == '[' {
        match byte_list(key) {
            Ok(bytes) => Ok(bytes),
            Err(error) => Err(SigningErrorView::InvalidJson(error)),
        }
    } else {
        match base58_bytes(key) {
            Ok(bytes) => Ok(bytes),
            Err(error) => Err(SigningErrorView::InvalidBase58(error)),
        }
    }
}

/// A command is signed where its key can be read and has the length of a seed or of a key pair: by
/// the account, with the first bytes of the key, at the given time. Otherwise what is wrong with
/// the key is told.
pub proof fn commands_are_signed_with_the_key_in_the_file(
    client: TradeClientView,
    operation_type: Seq<char>,
    request: JsonView,
    key_file: Result<Seq<char>, Seq<char>>,
    timestamp: i64,
    request_id: Seq<char>,
)
    ensures
        ({
            let result = client.request_at(
                operation_type,
                request,
                key_file,
                timestamp,
                request_id,
            );
            &&& key_file matches Err(error) ==> (result matches Err(said) && said
                == TradeErrorView::PrivateKey(error))
            &&& key_file matches Ok(text) ==> {
                let key = file_key(text);
                let fits = key is Ok && (key->Ok_0.len() == 32 || key->Ok_0.len() == 64);
                &&& result is Ok <==> fits
                &&& key matches Err(error) ==> result->Err_0 == TradeErrorView::Signing(error)
                &&& key is Ok && !fits ==> result->Err_0 == TradeErrorView::Signing(
                    SigningErrorView::InvalidKeyLength(key->Ok_0.len()),
                )
                &&& result matches Ok(signed) ==> {
                    let signer = SignerView {
                        seed: key->Ok_0.subrange(0, 32),
                        account: client.account,
                        expiry_window: client.expiry_window,
                    };
                    &&& signed.request_id == request_id
                    &&& signed.operation_type == operation_type
                    &&& signed.body == signer.signed(operation_type, request, timestamp).body()
                }
            }
        }),
{
    if key_file is Ok {
        let key = file_key(key_file->Ok_0);
        if key is Ok && key->Ok_0.len() >= 32 {
            assert(key->Ok_0.take(32) =~= key->Ok_0.subrange(0, 32));
        }
    }
}

/// The seed of a key is its first 32 bytes; a key has 32 bytes, or 64 with its public half.
pub proof fn seeds_are_the_first_bytes(bytes: Seq<u8>, account: Seq<char>, expiry_window: i64)
    ensures
        bytes.len() == 32 || bytes.len() == 64 ==> {
            &&& seed_of(bytes) == Ok::<Seq<u8>, SigningErrorView>(bytes.subrange(0, 32))
            &&& public_key_of(bytes) == Ok::<Seq<char>, SigningErrorView>(
                base58_text(ed25519_public_key(bytes.subrange(0, 32))),
            )
            &&& signer_of(bytes, account, expiry_window) matches Ok(signer) && signer.seed
                == bytes.subrange(0, 32) && signer.account == account && signer.expiry_window
                == expiry_window
        },
        bytes.len() != 32 && bytes.len() != 64 ==> {
            let error = SigningErrorView::InvalidKeyLength(bytes.len());
            &&& seed_of(bytes) == Err::<Seq<u8>, SigningErrorView>(error)
            &&& public_key_of(bytes) == Err::<Seq<char>, SigningErrorView>(error)
            &&& signer_of(bytes, account, expiry_window) matches Err(said) && said == error
        },
{
    if bytes.len() >= 32 {
        assert(bytes.take(32) =~= bytes.subrange(0, 32));
    }
}

/// A key pair is written as a list of bytes where its text starts with a bracket behind white
/// space, and otherwise in Base58 between white space.
pub proof fn key_pairs_are_written_in_two_forms(text: Seq<char>)
    ensures
        ({
            let start = trimmed_start(text);
            let listed = start.len() > 0 && start[0] == '[';
            &&& listed && byte_list(text) is Ok ==> keypair_bytes(text) == Ok::<
                Seq<u8>,
                SigningErrorView,
            >(byte_list(text)->Ok_0)
            &&& listed && byte_list(text) is Err ==> keypair_bytes(text) == Err::<
                Seq<u8>,
                SigningErrorView,
            >(SigningErrorView::InvalidJson(byte_list(text)->Err_0))
            &&& !listed && base58_bytes(trimmed(text)) is Ok ==> keypair_bytes(text) == Ok::<
                Seq<u8>,
                SigningErrorView,
            >(base58_bytes(trimmed(text))->Ok_0)
            &&& !listed && base58_bytes(trimmed(text)) is Err ==> keypair_bytes(text) == Err::<
                Seq<u8>,
                SigningErrorView,
            >(SigningErrorView::InvalidBase58(base58_bytes(trimmed(text))->Err_0))
        }),
{
}

/// What is signed is a JSON text of four members: the request, its kind, its time and how long it
/// is good for. Under `data` stand the members of the request, all of them and no others.
pub proof fn the_signed_text_holds_the_request(
    operation_type: Seq<char>,
    request: JsonView,
    timestamp: i64,
    expiry_window: i64,
) -> (value: JsonView)
    ensures
        signed_text(operation_type, request, timestamp, expiry_window) == json_text(value),
        json_get(value, "type"@) == Some(JsonView::Text(operation_type)),
        json_get(value, "timestamp"@) == Some(JsonView::Int(timestamp)),
        json_get(value, "expiry_window"@) == Some(JsonView::Int(expiry_window)),
        json_get(value, "data"@) matches Some(data) && (request is Object ==> data == request)
            && forall|name: Seq<char>| #[trigger]
            json_get(data, name) == json_get(request, name),
        forall|name: Seq<char>| #[trigger]
            json_get(value, name) is Some ==> name == "type"@ || name == "timestamp"@ || name
                == "expiry_window"@ || name == "data"@,
{
    let members = seq![
        ("data"@, JsonView::Object(payload_members(request))),
        ("expiry_window"@, JsonView::Int(expiry_window)),
        ("timestamp"@, JsonView::Int(timestamp)),
        ("type"@, JsonView::Text(operation_type)),
    ];
    let value = JsonView::Object(members);
    reveal_strlit("data");
    reveal_strlit("expiry_window");
    reveal_strlit("timestamp");
    reveal_strlit("type");
    reveal_with_fuel(lex_less, 3);
    assert(names_in_order(members));
    members_are_found_by_name(members, "data"@);
    members_are_found_by_name(members, "expiry_window"@);
    members_are_found_by_name(members, "timestamp"@);
    members_are_found_by_name(members, "type"@);
    assert(members[0].0 == "data"@ && members[1].0 == "expiry_window"@ && members[2].0
        == "timestamp"@ && members[3].0 == "type"@);
    assert forall|name: Seq<char>| #[trigger] json_get(value, name) is Some implies name == "type"@
        || name == "timestamp"@ || name == "expiry_window"@ || name == "data"@ by {
        members_are_found_by_name(members, name);
    }
    value
}

/// A signed request bears the account, the times and the members of the request, and the Ed25519
/// signature of the signed text under the seed, in Base58.
pub proof fn signatures_are_of_the_signed_text(
    signer: SignerView,
    operation_type: Seq<char>,
    request: JsonView,
    timestamp: i64,
)
    ensures
        ({
            let signed = signer.signed(operation_type, request, timestamp);
            let text = signed_text(operation_type, request, timestamp, signer.expiry_window);
            &&& signed.account == signer.account
            &&& signed.timestamp == timestamp
            &&& signed.expiry_window == signer.expiry_window
            &&& signed.signature == base58_text(
                ed25519_signature(signer.seed, encode_utf8(text)),
            )
            &&& forall|name: Seq<char>| #[trigger]
                member(signed.payload, name) == json_get(request, name)
        }),
{
    assert forall|name: Seq<char>| #[trigger]
        member(signer.signed(operation_type, request, timestamp).payload, name) == json_get(
            request,
            name,
        ) by {}
}

/// The body to send holds the account, the signature, the time and how long it is good for, where
/// the request has no members of those names; every member of the request; and nothing else.
pub proof fn the_body_holds_nothing_else(signed: SignedActionView, name: Seq<char>)
    requires
        names_in_order(signed.payload),
    ensures
        ({
            let found = json_get(signed.body(), name);
            &&& member(signed.payload, name) is Some ==> found == member(signed.payload, name)
            &&& member(signed.payload, name) is None ==> {
                &&& name == "account"@ ==> found == Some(JsonView::Text(signed.account))
                &&& name == "signature"@ ==> found == Some(JsonView::Text(signed.signature))
                &&& name == "timestamp"@ ==> found == Some(JsonView::Int(signed.timestamp))
                &&& name == "expiry_window"@ ==> found == Some(JsonView::Int(signed.expiry_window))
                &&& name != "account"@ && name != "signature"@ && name != "timestamp"@ && name
                    != "expiry_window"@ ==> found is None
            }
        }),
{
    reveal_strlit("account");
    reveal_strlit("expiry_window");
    reveal_strlit("signature");
    reveal_strlit("timestamp");
    let members = signed.envelope();
    assert(names_in_order(members));
    upper_members_count(members, signed.payload, signed.payload.len() as int, name);
    assert(signed.payload.take(signed.payload.len() as int) =~= signed.payload);
    members_are_found_by_name(members, name);
    assert(members[0].0 == "account"@ && members[1].0 == "expiry_window"@ && members[2].0
        == "signature"@ && members[3].0 == "timestamp"@);
}

/// The request for a new order names everything about it, and nothing else.
pub proof fn create_requests_are_written_in_full(payload: CreateOrderPayload, name: Seq<char>)
    ensures
        json_get(payload.json(), "amount"@) == Some(JsonView::Text(payload.amount@)),
        json_get(payload.json(), "client_order_id"@) == Some(
            JsonView::Text(payload.client_order_id@),
        ),
        json_get(payload.json(), "price"@) == Some(JsonView::Text(payload.price@)),
        json_get(payload.json(), "reduce_only"@) == Some(JsonView::Bool(payload.reduce_only)),
        json_get(payload.json(), "side"@) == Some(JsonView::Text(payload.side@)),
        json_get(payload.json(), "symbol"@) == Some(JsonView::Text(payload.symbol@)),
        json_get(payload.json(), "tif"@) == Some(JsonView::Text(payload.tif@)),
        json_get(payload.json(), name) is Some ==> name == "amount"@ || name == "client_order_id"@
            || name == "price"@ || name == "reduce_only"@ || name == "side"@ || name == "symbol"@
            || name == "tif"@,
{
    let members = payload.json()->Object_0;
    reveal_strlit("amount");
    reveal_strlit("client_order_id");
    reveal_strlit("price");
    reveal_strlit("reduce_only");
    reveal_strlit("side");
    reveal_strlit("symbol");
    reveal_strlit("tif");
    reveal_with_fuel(lex_less, 3);
    assert(names_in_order(members));
    members_are_found_by_name(members, "amount"@);
    members_are_found_by_name(members, "client_order_id"@);
    members_are_found_by_name(members, "price"@);
    members_are_found_by_name(members, "reduce_only"@);
    members_are_found_by_name(members, "side"@);
    members_are_found_by_name(members, "symbol"@);
    members_are_found_by_name(members, "tif"@);
    members_are_found_by_name(members, name);
    assert(members[0].0 == "amount"@ && members[1].0 == "client_order_id"@ && members[2].0
        == "price"@ && members[3].0 == "reduce_only"@ && members[4].0 == "side"@ && members[5].0
        == "symbol"@ && members[6].0 == "tif"@);
}

/// The request to cancel an order names the order and its symbol, and nothing else.
pub proof fn cancel_requests_are_written_in_full(payload: CancelOrderPayload, name: Seq<char>)
    ensures
        json_get(payload.json(), "client_order_id"@) == Some(
            JsonView::Text(payload.client_order_id@),
        ),
        json_get(payload.json(), "symbol"@) == Some(JsonView::Text(payload.symbol@)),
        json_get(payload.json(), name) is Some ==> name == "client_order_id"@ || name == "symbol"@,
{
    let members = payload.json()->Object_0;
    reveal_strlit("client_order_id");
    reveal_strlit("symbol");
    assert(names_in_order(members));
    members_are_found_by_name(members, "client_order_id"@);
    members_are_found_by_name(members, "symbol"@);
    members_are_found_by_name(members, name);
    assert(members[0].0 == "client_order_id"@ && members[1].0 == "symbol"@);
}

/// The request to change an order names it, its symbol, and its new price and amount, and nothing
/// else.
pub proof fn edit_requests_are_written_in_full(payload: EditOrderPayload, name: Seq<char>)
    ensures
        json_get(payload.json(), "amount"@) == Some(JsonView::Text(payload.amount@)),
        json_get(payload.json(), "client_order_id"@) == Some(
            JsonView::Text(payload.client_order_id@),
        ),
        json_get(payload.json(), "price"@) == Some(JsonView::Text(payload.price@)),
        json_get(payload.json(), "symbol"@) == Some(JsonView::Text(payload.symbol@)),
        json_get(payload.json(), name) is Some ==> name == "amount"@ || name == "client_order_id"@
            || name == "price"@ || name == "symbol"@,
{
    let members = payload.json()->Object_0;
    reveal_strlit("amount");
    reveal_strlit("client_order_id");
    reveal_strlit("price");
    reveal_strlit("symbol");
    assert(names_in_order(members));
    members_are_found_by_name(members, "amount"@);
    members_are_found_by_name(members, "client_order_id"@);
    members_are_found_by_name(members, "price"@);
    members_are_found_by_name(members, "symbol"@);
    members_are_found_by_name(members, name);
    assert(members[0].0 == "amount"@ && members[1].0 == "client_order_id"@ && members[2].0
        == "price"@ && members[3].0 == "symbol"@);
}

/// The request to trade at the price of the market names everything about it, and nothing else.
pub proof fn market_requests_are_written_in_full(
    payload: CreateMarketOrderPayload,
    name: Seq<char>,
)
    ensures
        json_get(payload.json(), "amount"@) == Some(JsonView::Text(payload.amount@)),
        json_get(payload.json(), "client_order_id"@) == Some(
            JsonView::Text(payload.client_order_id@),
        ),
        json_get(payload.json(), "reduce_only"@) == Some(JsonView::Bool(payload.reduce_only)),
        json_get(payload.json(), "side"@) == Some(JsonView::Text(payload.side@)),
        json_get(payload.json(), "slippage_percent"@) == Some(
            JsonView::Text(payload.slippage_percent@),
        ),
        json_get(payload.json(), "symbol"@) == Some(JsonView::Text(payload.symbol@)),
        json_get(payload.json(), name) is Some ==> name == "amount"@ || name == "client_order_id"@
            || name == "reduce_only"@ || name == "side"@ || name == "slippage_percent"@ || name
            == "symbol"@,
{
    let members = payload.json()->Object_0;
    reveal_strlit("amount");
    reveal_strlit("client_order_id");
    reveal_strlit("reduce_only");
    reveal_strlit("side");
    reveal_strlit("slippage_percent");
    reveal_strlit("symbol");
    reveal_with_fuel(lex_less, 3);
    assert(names_in_order(members));
    members_are_found_by_name(members, "amount"@);
    members_are_found_by_name(members, "client_order_id"@);
    members_are_found_by_name(members, "reduce_only"@);
    members_are_found_by_name(members, "side"@);
    members_are_found_by_name(members, "slippage_percent"@);
    members_are_found_by_name(members, "symbol"@);
    members_are_found_by_name(members, name);
    assert(members[0].0 == "amount"@ && members[1].0 == "client_order_id"@ && members[2].0
        == "reduce_only"@ && members[3].0 == "side"@ && members[4].0 == "slippage_percent"@
        && members[5].0 == "symbol"@);
}

/// The request to cancel all orders says of which symbols and orders, and names one symbol where
/// there is one, and nothing else.
pub proof fn cancel_all_requests_are_written_in_full(
    payload: CancelAllOrdersPayload,
    name: Seq<char>,
)
    ensures
        json_get(payload.json(), "all_symbols"@) == Some(JsonView::Bool(payload.all_symbols)),
        json_get(payload.json(), "exclude_reduce_only"@) == Some(
            JsonView::Bool(payload.exclude_reduce_only),
        ),
        payload.symbol matches Some(symbol) ==> json_get(payload.json(), "symbol"@) == Some(
            JsonView::Text(symbol@),
        ),
        payload.symbol is None ==> json_get(payload.json(), "symbol"@) is None,
        json_get(payload.json(), name) is Some ==> name == "all_symbols"@ || name
            == "exclude_reduce_only"@ || name == "symbol"@,
{
    let members = payload.json()->Object_0;
    reveal_strlit("all_symbols");
    reveal_strlit("exclude_reduce_only");
    reveal_strlit("symbol");
    reveal_with_fuel(lex_less, 3);
    assert(names_in_order(members));
    members_are_found_by_name(members, "all_symbols"@);
    members_are_found_by_name(members, "exclude_reduce_only"@);
    members_are_found_by_name(members, "symbol"@);
    members_are_found_by_name(members, name);
    assert(members[0].0 == "all_symbols"@ && members[1].0 == "exclude_reduce_only"@);
    assert("all_symbols"@.len() == 11 && "exclude_reduce_only"@.len() == 19 && "symbol"@.len() == 6);
    if payload.symbol is Some {
        assert(members[2].0 == "symbol"@);
    }
}

/// The operation is one that the exchange has a command for.
pub open spec fn is_operation(operation_type: Seq<char>) -> bool {
    ||| operation_type == "create_order"@
    ||| operation_type == "cancel_order"@
    ||| operation_type == "edit_order"@
    ||| operation_type == "create_market_order"@
    ||| operation_type == "cancel_all_orders"@
    ||| operation_type == "batch_orders"@
}

/// There are six commands, and each goes by its operation's name.
pub proof fn commands_go_by_their_operation(operation_type: Seq<char>)
    ensures
        action_named(operation_type) is Some <==> is_operation(operation_type),
        action_named(operation_type) matches Some(action) ==> action.name() == operation_type,
        WsTradeAction::CreateOrder.name() == "create_order"@,
        WsTradeAction::CancelOrder.name() == "cancel_order"@,
        WsTradeAction::EditOrder.name() == "edit_order"@,
        WsTradeAction::CreateMarketOrder.name() == "create_market_order"@,
        WsTradeAction::CancelAllOrders.name() == "cancel_all_orders"@,
        WsTradeAction::BatchOrders.name() == "batch_orders"@,
{
}

/// A value is a command: its identifier, and under the name of its operation its body.
pub open spec fn is_command(
    value: JsonView,
    id: Seq<char>,
    operation_type: Seq<char>,
    body: JsonView,
) -> bool {
    &&& json_get(value, "id"@) == Some(JsonView::Text(id))
    &&& json_get(value, "params"@) matches Some(params) && json_get(params, operation_type) == Some(
        body,
    ) && forall|name: Seq<char>| #[trigger]
        json_get(params, name) is Some ==> name == operation_type
    &&& forall|name: Seq<char>| #[trigger]
        json_get(value, name) is Some ==> name == "id"@ || name == "params"@
}

/// A command bears its identifier, and its body under the name of its operation, and nothing else.
pub proof fn commands_hold_their_body(id: Seq<char>, action: WsTradeAction, body: JsonView)
    ensures
        is_command(command(id, action, body), id, action.name(), body),
{
    let members = command(id, action, body)->Object_0;
    reveal_strlit("id");
    reveal_strlit("params");
    assert(names_in_order(members));
    members_are_found_by_name(members, "id"@);
    members_are_found_by_name(members, "params"@);
    assert(members[0].0 == "id"@ && members[1].0 == "params"@);
    let params = members[1].1->Object_0;
    assert(names_in_order(params));
    members_are_found_by_name(params, action.name());
    assert(params[0].0 == action.name());
    assert forall|name: Seq<char>| #[trigger] json_get(members[1].1, name) is Some implies name
        == action.name() by {
        members_are_found_by_name(params, name);
    }
    assert forall|name: Seq<char>| #[trigger]
        json_get(command(id, action, body), name) is Some implies name == "id"@ || name
        == "params"@ by {
        members_are_found_by_name(members, name);
    }
}

/// Every command that is waited for fails with those words, and nothing else is answered.
pub open spec fn all_fail(
    replies: Map<Seq<char>, Result<(), TradeErrorView>>,
    pending: Set<Seq<char>>,
    words: Seq<char>,
) -> bool {
    &&& forall|id: Seq<char>| #[trigger] replies.contains_key(id) <==> pending.contains(id)
    &&& forall|id: Seq<char>|
        pending.contains(id) ==> #[trigger] replies[id] == Err::<(), TradeErrorView>(
            TradeErrorView::Order(words),
        )
}

/// What becomes of a command that is to be sent over the open socket: it is sent with its
/// identifier and its body, and waited for; or, where its kind is unknown, it is not sent and fails
/// together with all that are waited for, and the socket is given up.
pub open spec fn command_goes_out(
    before: WorkerView,
    id: Seq<char>,
    operation_type: Seq<char>,
    body: JsonView,
    after: WorkerView,
    action: ActionView,
    replies: Map<Seq<char>, Result<(), TradeErrorView>>,
) -> bool {
    &&& is_operation(operation_type) ==> {
        &&& after.phase == PhaseView::Sending(id)
        &&& forall|other: Seq<char>| #[trigger]
            after.pending.contains(other) <==> before.pending.contains(other) || other == id
        &&& action matches ActionView::Send(value) && is_command(value, id, operation_type, body)
        &&& forall|other: Seq<char>| !#[trigger] replies.contains_key(other)
    }
    &&& !is_operation(operation_type) ==> {
        let words = "unsupported trade operation: "@ + operation_type;
        &&& after.phase is Idle
        &&& forall|other: Seq<char>| !#[trigger] after.pending.contains(other)
        &&& action is AwaitCommand
        &&& forall|other: Seq<char>| #[trigger]
            replies.contains_key(other) <==> before.pending.contains(other) || other == id
        &&& forall|other: Seq<char>|
            before.pending.contains(other) ==> #[trigger] replies[other] == Err::<
                (),
                TradeErrorView,
            >(TradeErrorView::Order(words))
        &&& !before.pending.contains(id) ==> replies[id] == Err::<(), TradeErrorView>(
            TradeErrorView::Stopped,
        )
    }
}

/// The socket is lost: the worker waits for a command again, with none on its hands, and every
/// command that was waited for fails with those words.
pub open spec fn socket_is_lost(
    before: WorkerView,
    words: Seq<char>,
    after: WorkerView,
    action: ActionView,
    replies: Map<Seq<char>, Result<(), TradeErrorView>>,
) -> bool {
    &&& after.phase is Idle
    &&& forall|id: Seq<char>| !#[trigger] after.pending.contains(id)
    &&& action is AwaitCommand
    &&& all_fail(replies, before.pending, words)
}

proof fn lemma_command_goes_out(
    before: WorkerView,
    request: crate::trade_stream::SignedTradeRequestView,
)
    ensures
        ({
            let (after, action, replies) = before.sends(request);
            command_goes_out(
                before,
                request.request_id,
                request.operation_type,
                request.body,
                after,
                action,
                replies,
            )
        }),
{
    commands_go_by_their_operation(request.operation_type);
    if let Some(action) = action_named(request.operation_type) {
        commands_hold_their_body(request.request_id, action, request.body);
    }
}

/// A worker without a socket opens one for a command, and stops where no more commands will come.
pub proof fn an_idle_worker_takes_commands(worker: WorkerView, event: WorkerEvent)
    requires
        worker.phase is Idle,
    ensures
        ({
            let (after, action, replies) = worker.step(event);
            &&& event matches WorkerEvent::Command(request) ==> {
                &&& after.phase == PhaseView::Connecting(request@)
                &&& after.pending == worker.pending
                &&& action is Connect
                &&& forall|id: Seq<char>| !#[trigger] replies.contains_key(id)
            }
            &&& event is CommandsClosed ==> {
                &&& after.phase is Stopped
                &&& action is Stop
                &&& all_fail(replies, worker.pending, "trade command client stopped"@)
            }
            &&& !(event is Command) && !(event is CommandsClosed) ==> {
                &&& after == worker
                &&& action is AwaitCommand
                &&& forall|id: Seq<char>| !#[trigger] replies.contains_key(id)
            }
        }),
{
}

/// A worker that opens its socket sends its command once the socket is open, and answers it with
/// the failure where the socket cannot be opened.
pub proof fn a_connecting_worker_sends_its_command(worker: WorkerView, event: WorkerEvent)
    requires
        worker.phase is Connecting,
    ensures
        ({
            let request = worker.phase->Connecting_0;
            let (after, action, replies) = worker.step(event);
            &&& event is Connected ==> command_goes_out(
                worker,
                request.request_id,
                request.operation_type,
                request.body,
                after,
                action,
                replies,
            )
            &&& event matches WorkerEvent::ConnectFailed(error) ==> {
                &&& after.phase is Idle
                &&& after.pending == worker.pending
                &&& action is AwaitCommand
                &&& forall|id: Seq<char>| #[trigger]
                    replies.contains_key(id) <==> id == request.request_id
                &&& replies[request.request_id] == Err::<(), TradeErrorView>(
                    TradeErrorView::WebSocket(error@),
                )
            }
            &&& !(event is Connected) && !(event is ConnectFailed) ==> {
                &&& after == worker
                &&& action is Connect
                &&& forall|id: Seq<char>| !#[trigger] replies.contains_key(id)
            }
        }),
{
    lemma_command_goes_out(worker, worker.phase->Connecting_0);
}

/// A worker that sends listens once what was to be sent is sent, and loses the socket where it
/// could not be. Nothing else counts meanwhile.
pub proof fn a_sending_worker_listens_again(worker: WorkerView, event: WorkerEvent)
    requires
        worker.phase is Sending || worker.phase is Signalling,
    ensures
        ({
            let (after, action, replies) = worker.step(event);
            &&& event is Sent ==> {
                &&& after.phase is Listening
                &&& after.pending == worker.pending
                &&& action is AwaitAny
                &&& forall|id: Seq<char>| !#[trigger] replies.contains_key(id)
            }
            &&& event matches WorkerEvent::SendFailed(error) ==> socket_is_lost(
                worker,
                if worker.phase is Sending {
                    "tungstenite: "@ + error@
                } else {
                    error@
                },
                after,
                action,
                replies,
            )
            &&& !(event is Sent) && !(event is SendFailed) ==> {
                &&& after == worker
                &&& action is AwaitAny
                &&& forall|id: Seq<char>| !#[trigger] replies.contains_key(id)
            }
        }),
{
}

/// A worker that listens sends commands, hands answers to the commands they are for, gives and
/// answers signs of life, and loses the socket where it is closed or fails. Nothing else counts.
pub proof fn a_listening_worker_answers_what_happens(worker: WorkerView, event: WorkerEvent)
    requires
        worker.phase is Listening,
    ensures
        ({
            let (after, action, replies) = worker.step(event);
            &&& event matches WorkerEvent::Command(request) ==> command_goes_out(
                worker,
                request.request_id@,
                request.operation_type@,
                request.body@,
                after,
                action,
                replies,
            )
            &&& event matches WorkerEvent::Text { text, frame } ==> {
                let answer = answer_in(text@, frame, worker.pending);
                &&& after.phase is Listening
                &&& action is AwaitAny
                &&& answer is None ==> after.pending == worker.pending && forall|id: Seq<char>|
                    !#[trigger] replies.contains_key(id)
                &&& answer matches Some((id, result)) ==> {
                    &&& forall|other: Seq<char>| #[trigger]
                        after.pending.contains(other) <==> worker.pending.contains(other) && other
                            != id
                    &&& forall|other: Seq<char>| #[trigger]
                        replies.contains_key(other) <==> other == id
                    &&& replies[id] == result
                }
            }
            &&& event is Ping || event is Tick ==> {
                &&& after.phase is Signalling
                &&& after.pending == worker.pending
                &&& forall|id: Seq<char>| !#[trigger] replies.contains_key(id)
            }
            &&& event is Ping ==> action is Pong
            &&& event is Tick ==> (action matches ActionView::Send(value) && json_get(
                value,
                "method"@,
            ) == Some(JsonView::Text("ping"@)))
            &&& event is Closed ==> socket_is_lost(
                worker,
                "connection interrupted"@,
                after,
                action,
                replies,
            )
            &&& event matches WorkerEvent::SocketFailed(error) ==> socket_is_lost(
                worker,
                error@,
                after,
                action,
                replies,
            )
            &&& event is CommandsClosed || event is Connected || event is ConnectFailed || event
                is Sent || event is SendFailed || event is Ignored ==> {
                &&& after == worker
                &&& action is AwaitAny
                &&& forall|id: Seq<char>| !#[trigger] replies.contains_key(id)
            }
        }),
{
    crate::feed_laws::ping_is_a_method();
    if let WorkerEvent::Command(request) = event {
        lemma_command_goes_out(worker, request@);
    }
}

/// A worker that has stopped stays so.
pub proof fn a_stopped_worker_stays_so(worker: WorkerView, event: WorkerEvent)
    requires
        worker.phase is Stopped,
    ensures
        worker.step(event).0 == worker,
        worker.step(event).1 is Stop,
        forall|id: Seq<char>| !#[trigger] worker.step(event).2.contains_key(id),
{
}

} // verus!
