//! The bodies of order requests, as the exchange expects them.

use crate::json::{canonical, lemma_object_view, names_in_order, Json, JsonView};
use crate::text::lex_less;
use vstd::prelude::*;

verus! {

/// A request to place an order.
#[derive(Debug, PartialEq)]
pub struct CreateOrderPayload {
    pub amount: String,
    pub client_order_id: String,
    pub price: String,
    pub reduce_only: bool,
    pub side: String,
    pub symbol: String,
    pub tif: String,
}

/// What a [`CreateOrderPayload`] asks for.
pub struct CreateOrderView {
    pub amount: Seq<char>,
    pub client_order_id: Seq<char>,
    pub price: Seq<char>,
    pub reduce_only: bool,
    pub side: Seq<char>,
    pub symbol: Seq<char>,
    pub tif: Seq<char>,
}

/// A request to cancel an order.
#[derive(Debug, PartialEq)]
pub struct CancelOrderPayload {
    pub client_order_id: String,
    pub symbol: String,
}

/// What a [`CancelOrderPayload`] asks for.
pub struct CancelOrderView {
    pub client_order_id: Seq<char>,
    pub symbol: Seq<char>,
}

/// A request to change the price and the amount of an order.
#[derive(Debug, PartialEq)]
pub struct EditOrderPayload {
    pub amount: String,
    pub client_order_id: String,
    pub price: String,
    pub symbol: String,
}

/// What an [`EditOrderPayload`] asks for.
pub struct EditOrderView {
    pub amount: Seq<char>,
    pub client_order_id: Seq<char>,
    pub price: Seq<char>,
    pub symbol: Seq<char>,
}

impl View for CreateOrderPayload {
    type V = CreateOrderView;

    open spec fn view(&self) -> CreateOrderView {
        CreateOrderView {
            amount: self.amount@,
            client_order_id: self.client_order_id@,
            price: self.price@,
            reduce_only: self.reduce_only,
            side: self.side@,
            symbol: self.symbol@,
            tif: self.tif@,
        }
    }
}

impl View for CancelOrderPayload {
    type V = CancelOrderView;

    open spec fn view(&self) -> CancelOrderView {
        CancelOrderView { client_order_id: self.client_order_id@, symbol: self.symbol@ }
    }
}

impl View for EditOrderPayload {
    type V = EditOrderView;

    open spec fn view(&self) -> EditOrderView {
        EditOrderView {
            amount: self.amount@,
            client_order_id: self.client_order_id@,
            price: self.price@,
            symbol: self.symbol@,
        }
    }
}

/// An order that only adds to the book and may open a position.
pub open spec fn create_request(
    symbol: Seq<char>,
    price: Seq<char>,
    amount: Seq<char>,
    side: Seq<char>,
    client_order_id: Seq<char>,
) -> CreateOrderView {
    CreateOrderView {
        amount,
        client_order_id,
        price,
        reduce_only: false,
        side,
        symbol,
        tif: "ALO"@,
    }
}

impl CreateOrderPayload {
    /// A request for an order that only adds to the book and may open a position.
    pub fn new(
        symbol: &str,
        price: &str,
        amount: &str,
        side: &str,
        client_order_id: &str,
    ) -> (r: Self)
        ensures
            r@ == create_request(symbol@, price@, amount@, side@, client_order_id@),
    {
        CreateOrderPayload {
            amount: amount.to_string(),
            client_order_id: client_order_id.to_string(),
            price: price.to_string(),
            reduce_only: false,
            side: side.to_string(),
            symbol: symbol.to_string(),
            tif: "ALO".to_string(),
        }
    }
}

impl CancelOrderPayload {
    /// A request to cancel the order of that name.
    pub fn new(symbol: &str, client_order_id: &str) -> (r: Self)
        ensures
            r@ == (CancelOrderView { client_order_id: client_order_id@, symbol: symbol@ }),
    {
        CancelOrderPayload {
            client_order_id: client_order_id.to_string(),
            symbol: symbol.to_string(),
        }
    }
}

impl EditOrderPayload {
    /// A request to give the order of that name another price and amount.
    pub fn new(symbol: &str, price: &str, amount: &str, client_order_id: &str) -> (r: Self)
        ensures
            r@ == (EditOrderView {
                amount: amount@,
                client_order_id: client_order_id@,
                price: price@,
                symbol: symbol@,
            }),
    {
        EditOrderPayload {
            amount: amount.to_string(),
            client_order_id: client_order_id.to_string(),
            price: price.to_string(),
            symbol: symbol.to_string(),
        }
    }
}

impl Clone for CreateOrderPayload {
    fn clone(&self) -> (r: Self)
        ensures
            r@ == self@,
    {
        CreateOrderPayload {
            amount: self.amount.clone(),
            client_order_id: self.client_order_id.clone(),
            price: self.price.clone(),
            reduce_only: self.reduce_only,
            side: self.side.clone(),
            symbol: self.symbol.clone(),
            tif: self.tif.clone(),
        }
    }
}

impl Clone for CancelOrderPayload {
    fn clone(&self) -> (r: Self)
        ensures
            r@ == self@,
    {
        CancelOrderPayload {
            client_order_id: self.client_order_id.clone(),
            symbol: self.symbol.clone(),
        }
    }
}

impl Clone for EditOrderPayload {
    fn clone(&self) -> (r: Self)
        ensures
            r@ == self@,
    {
        EditOrderPayload {
            amount: self.amount.clone(),
            client_order_id: self.client_order_id.clone(),
            price: self.price.clone(),
            symbol: self.symbol.clone(),
        }
    }
}

/// What can stand in the body of a request.
pub trait Payload {
    /// The body as a JSON value.
    spec fn json(&self) -> JsonView;

    /// The body as a JSON value.
    fn to_json(&self) -> (r: Json)
        ensures
            r@ == self.json(),
            canonical(r@),
    ;
}

impl Payload for CreateOrderPayload {
    open spec fn json(&self) -> JsonView {
        JsonView::Object(
            seq![
                ("amount"@, JsonView::Text(self.amount@)),
                ("client_order_id"@, JsonView::Text(self.client_order_id@)),
                ("price"@, JsonView::Text(self.price@)),
                ("reduce_only"@, JsonView::Bool(self.reduce_only)),
                ("side"@, JsonView::Text(self.side@)),
                ("symbol"@, JsonView::Text(self.symbol@)),
                ("tif"@, JsonView::Text(self.tif@)),
            ],
        )
    }

    fn to_json(&self) -> (r: Json) {
        broadcast use lemma_object_view;

        let mut members: Vec<(String, Json)> = Vec::new();
        members.push(("amount".to_string(), Json::Text(self.amount.clone())));
        members.push(("client_order_id".to_string(), Json::Text(self.client_order_id.clone())));
        members.push(("price".to_string(), Json::Text(self.price.clone())));
        members.push(("reduce_only".to_string(), Json::Bool(self.reduce_only)));
        members.push(("side".to_string(), Json::Text(self.side.clone())));
        members.push(("symbol".to_string(), Json::Text(self.symbol.clone())));
        members.push(("tif".to_string(), Json::Text(self.tif.clone())));
        assert(members.deep_view() =~= self.json()->Object_0);
        proof {
            reveal_strlit("amount");
            reveal_strlit("client_order_id");
            reveal_strlit("price");
            reveal_strlit("reduce_only");
            reveal_strlit("side");
            reveal_strlit("symbol");
            reveal_strlit("tif");
            reveal_with_fuel(lex_less, 3);
            assert(names_in_order(members.deep_view()));
            reveal_with_fuel(canonical, 2);
        }
        Json::Object(members)
    }
}

impl Payload for CancelOrderPayload {
    open spec fn json(&self) -> JsonView {
        JsonView::Object(
            seq![
                ("client_order_id"@, JsonView::Text(self.client_order_id@)),
                ("symbol"@, JsonView::Text(self.symbol@)),
            ],
        )
    }

    fn to_json(&self) -> (r: Json) {
        broadcast use lemma_object_view;

        let mut members: Vec<(String, Json)> = Vec::new();
        members.push(("client_order_id".to_string(), Json::Text(self.client_order_id.clone())));
        members.push(("symbol".to_string(), Json::Text(self.symbol.clone())));
        assert(members.deep_view() =~= self.json()->Object_0);
        proof {
            reveal_strlit("client_order_id");
            reveal_strlit("symbol");
            assert(names_in_order(members.deep_view()));
            reveal_with_fuel(canonical, 2);
        }
        Json::Object(members)
    }
}

impl Payload for EditOrderPayload {
    open spec fn json(&self) -> JsonView {
        JsonView::Object(
            seq![
                ("amount"@, JsonView::Text(self.amount@)),
                ("client_order_id"@, JsonView::Text(self.client_order_id@)),
                ("price"@, JsonView::Text(self.price@)),
                ("symbol"@, JsonView::Text(self.symbol@)),
            ],
        )
    }

    fn to_json(&self) -> (r: Json) {
        broadcast use lemma_object_view;

        let mut members: Vec<(String, Json)> = Vec::new();
        members.push(("amount".to_string(), Json::Text(self.amount.clone())));
        members.push(("client_order_id".to_string(), Json::Text(self.client_order_id.clone())));
        members.push(("price".to_string(), Json::Text(self.price.clone())));
        members.push(("symbol".to_string(), Json::Text(self.symbol.clone())));
        assert(members.deep_view() =~= self.json()->Object_0);
        proof {
            reveal_strlit("amount");
            reveal_strlit("client_order_id");
            reveal_strlit("price");
            reveal_strlit("symbol");
            assert(names_in_order(members.deep_view()));
            reveal_with_fuel(canonical, 2);
        }
        Json::Object(members)
    }
}

/// The members of a body, by name: those of an object, and none where the body is no object.
pub open spec fn payload_members(body: JsonView) -> Seq<(Seq<char>, JsonView)> {
    match body {
        JsonView::Object(members) => members,
        _ => Seq::empty(),
    }
}

/// The members of a body, sorted by name.
pub fn to_sorted_payload<T: Payload>(payload: &T) -> (r: Vec<(String, Json)>)
    ensures
        r.deep_view() == payload_members(payload.json()),
        names_in_order(r.deep_view()),
        canonical(JsonView::Object(r.deep_view())),
{
    broadcast use lemma_object_view;

    let body = payload.to_json();
    match body {
        Json::Object(members) => members,
        _ => {
            let members: Vec<(String, Json)> = Vec::new();
            assert(members.deep_view() =~= Seq::<(Seq<char>, JsonView)>::empty());
            members
        },
    }
}

} // verus!
