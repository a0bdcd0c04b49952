//! What is sent over the sockets of the exchange to follow its channels.

use crate::json::{canonical, lemma_object_view, names_in_order, Json, JsonNumber, JsonView};
use crate::text::lex_less;
use vstd::prelude::*;
use vstd::string::StringExecFns;

verus! {

/// Why a socket cannot be used any more.
#[derive(Debug)]
pub enum WebSocketError {
    Tungstenite(String),
    Json(String),
    ConnectionInterrupted,
}

/// What a [`WebSocketError`] says.
pub enum WebSocketErrorView {
    Tungstenite(Seq<char>),
    Json(Seq<char>),
    ConnectionInterrupted,
}

impl View for WebSocketError {
    type V = WebSocketErrorView;

    open spec fn view(&self) -> WebSocketErrorView {
        match *self {
            WebSocketError::Tungstenite(error) => WebSocketErrorView::Tungstenite(error@),
            WebSocketError::Json(error) => WebSocketErrorView::Json(error@),
            WebSocketError::ConnectionInterrupted => WebSocketErrorView::ConnectionInterrupted,
        }
    }
}

impl WebSocketErrorView {
    /// The words for the error.
    pub open spec fn words(self) -> Seq<char> {
        match self {
            WebSocketErrorView::Tungstenite(error) => "websocket: "@ + error,
            WebSocketErrorView::Json(error) => "json: "@ + error,
            WebSocketErrorView::ConnectionInterrupted => "connection interrupted"@,
        }
    }
}

impl WebSocketError {
    /// The words for the error.
    pub fn message(&self) -> (r: String)
        ensures
            r@ == self@.words(),
    {
        match self {
            WebSocketError::Tungstenite(error) => "websocket: ".to_string().concat(error.as_str()),
            WebSocketError::Json(error) => "json: ".to_string().concat(error.as_str()),
            WebSocketError::ConnectionInterrupted => "connection interrupted".to_string(),
        }
    }
}

/// The request to follow a channel.
pub open spec fn subscribe_request(params: JsonView) -> JsonView {
    JsonView::Object(seq![("method"@, JsonView::Text("subscribe"@)), ("params"@, params)])
}

/// The parameters of the book of a symbol.
pub open spec fn book_params(symbol: Seq<char>, agg_level: i64) -> JsonView {
    JsonView::Object(
        seq![
            ("agg_level"@, JsonView::Int(agg_level)),
            ("source"@, JsonView::Text("book"@)),
            ("symbol"@, JsonView::Text(symbol)),
        ],
    )
}

/// The parameters of another public channel.
pub open spec fn symbol_params(source: Seq<char>, symbol: Seq<char>) -> JsonView {
    JsonView::Object(
        seq![("source"@, JsonView::Text(source)), ("symbol"@, JsonView::Text(symbol))],
    )
}

/// The parameters of a private channel.
pub open spec fn account_params(source: Seq<char>, account: Seq<char>) -> JsonView {
    JsonView::Object(
        seq![("account"@, JsonView::Text(account)), ("source"@, JsonView::Text(source))],
    )
}

/// The requests to follow the public channels of a symbol.
pub open spec fn public_requests(symbol: Seq<char>, agg_level: i64) -> Seq<JsonView> {
    seq![
        subscribe_request(book_params(symbol, agg_level)),
        subscribe_request(symbol_params("trades"@, symbol)),
        subscribe_request(symbol_params("bbo"@, symbol)),
    ]
}

/// The requests to follow the private channels of an account.
pub open spec fn private_requests(account: Seq<char>) -> Seq<JsonView> {
    seq![
        subscribe_request(account_params("account_positions"@, account)),
        subscribe_request(account_params("account_order_updates"@, account)),
        subscribe_request(account_params("account_trades"@, account)),
    ]
}

/// The request to follow the book of a symbol, in steps of `agg_level`.
fn book_subscription(symbol: &str, agg_level: i64) -> (r: Json)
    ensures
        r@ == subscribe_request(book_params(symbol@, agg_level)),
        canonical(r@),
{
    broadcast use lemma_object_view;

    let mut params: Vec<(String, Json)> = Vec::new();
    params.push(("agg_level".to_string(), Json::Number(JsonNumber::Int(agg_level))));
    params.push(("source".to_string(), Json::Text("book".to_string())));
    params.push(("symbol".to_string(), Json::Text(symbol.to_string())));
    proof {
        assert(JsonView::Object(params.deep_view()) == book_params(symbol@, agg_level)) by {
            assert(params.deep_view() =~= book_params(symbol@, agg_level)->Object_0);
        }
        reveal_strlit("agg_level");
        reveal_strlit("source");
        reveal_strlit("symbol");
        reveal_with_fuel(lex_less, 3);
        assert(names_in_order(params.deep_view()));
        reveal_with_fuel(canonical, 2);
    }
    subscription(Json::Object(params))
}

/// The request to follow another public channel of a symbol.
fn symbol_subscription(source: &str, symbol: &str) -> (r: Json)
    ensures
        r@ == subscribe_request(symbol_params(source@, symbol@)),
        canonical(r@),
{
    broadcast use lemma_object_view;

    let mut params: Vec<(String, Json)> = Vec::new();
    params.push(("source".to_string(), Json::Text(source.to_string())));
    params.push(("symbol".to_string(), Json::Text(symbol.to_string())));
    proof {
        assert(JsonView::Object(params.deep_view()) == symbol_params(source@, symbol@)) by {
            assert(params.deep_view() =~= symbol_params(source@, symbol@)->Object_0);
        }
        reveal_strlit("source");
        reveal_strlit("symbol");
        reveal_with_fuel(lex_less, 3);
        assert(names_in_order(params.deep_view()));
        reveal_with_fuel(canonical, 2);
    }
    subscription(Json::Object(params))
}

/// The request to follow a private channel.
fn account_subscription(source: &str, account: &str) -> (r: Json)
    ensures
        r@ == subscribe_request(account_params(source@, account@)),
        canonical(r@),
{
    broadcast use lemma_object_view;

    let mut params: Vec<(String, Json)> = Vec::new();
    params.push(("account".to_string(), Json::Text(account.to_string())));
    params.push(("source".to_string(), Json::Text(source.to_string())));
    proof {
        assert(JsonView::Object(params.deep_view()) == account_params(source@, account@)) by {
            assert(params.deep_view() =~= account_params(source@, account@)->Object_0);
        }
        reveal_strlit("account");
        reveal_strlit("source");
        assert(names_in_order(params.deep_view()));
        reveal_with_fuel(canonical, 2);
    }
    subscription(Json::Object(params))
}

/// The requests to follow the public channels of a symbol.
pub fn public_subscriptions(symbol: &str, agg_level: i64) -> (r: Vec<Json>)
    ensures
        r.deep_view() == public_requests(symbol@, agg_level),
        forall|i: int| 0 <= i < r.len() ==> canonical((#[trigger] r@[i])@),
{
    let mut r: Vec<Json> = Vec::new();
    r.push(book_subscription(symbol, agg_level));
    r.push(symbol_subscription("trades", symbol));
    r.push(symbol_subscription("bbo", symbol));
    assert(r.deep_view() =~= public_requests(symbol@, agg_level));
    r
}

/// The requests to follow the private channels of an account.
pub fn private_subscriptions(account: &str) -> (r: Vec<Json>)
    ensures
        r.deep_view() == private_requests(account@),
        forall|i: int| 0 <= i < r.len() ==> canonical((#[trigger] r@[i])@),
{
    let mut r: Vec<Json> = Vec::new();
    r.push(account_subscription("account_positions", account));
    r.push(account_subscription("account_order_updates", account));
    r.push(account_subscription("account_trades", account));
    assert(r.deep_view() =~= private_requests(account@));
    r
}

/// What is sent to keep a socket open.
pub open spec fn ping() -> JsonView {
    JsonView::Object(seq![("method"@, JsonView::Text("ping"@))])
}

/// What is sent to keep a socket open.
pub fn ping_payload() -> (r: Json)
    ensures
        r@ == ping(),
        canonical(r@),
{
    broadcast use lemma_object_view;

    let mut members: Vec<(String, Json)> = Vec::new();
    members.push(("method".to_string(), Json::Text("ping".to_string())));
    proof {
        assert(members.deep_view() =~= ping()->Object_0);
        reveal_with_fuel(canonical, 2);
    }
    Json::Object(members)
}

/// The request to follow a channel.
fn subscription(params: Json) -> (r: Json)
    requires
        canonical(params@),
    ensures
        r@ == subscribe_request(params@),
        canonical(r@),
{
    broadcast use lemma_object_view;

    let ghost said = params@;
    let mut members: Vec<(String, Json)> = Vec::new();
    members.push(("method".to_string(), Json::Text("subscribe".to_string())));
    members.push(("params".to_string(), params));
    proof {
        assert(members.deep_view() =~= subscribe_request(said)->Object_0);
        reveal_strlit("method");
        reveal_strlit("params");
        assert(names_in_order(members.deep_view()));
        assert(canonical(JsonView::Text("subscribe"@)));
        assert forall|i: int| 0 <= i < members.deep_view().len() implies canonical(
            (#[trigger] members.deep_view()[i]).1,
        ) by {}
        assert(canonical(JsonView::Object(members.deep_view())));
    }
    Json::Object(members)
}

} // verus!
