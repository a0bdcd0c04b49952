//! What a connector offers to the bots.

use crate::types::{LiveEvent, LiveEventView, Order, Status};
use vstd::prelude::*;

verus! {

/// Provides a build function for a connector.
pub trait ConnectorBuilder {
    type Error: core::fmt::Debug;

    /// The connector that the settings in a text give.
    fn build_from(config: &str) -> Result<Self, Self::Error> where Self: Sized;
}

/// Provides `orders` to get the current working orders.
pub trait GetOrders {
    /// `listed` are the working orders, of one symbol or of all.
    spec fn lists(&self, symbol: Option<Seq<char>>, listed: Seq<Order>) -> bool;

    /// The working orders, of one symbol or of all.
    fn orders(&self, symbol: Option<String>) -> (r: Vec<Order>)
        ensures
            self.lists(symbol.deep_view(), r@),
    ;
}

/// The answer to a request to replace an order, where the connector does not support it: the
/// request is rejected at once, so that the bot does not wait for it.
pub fn reject_modify(symbol: String, order: Order) -> (r: LiveEvent)
    ensures
        r@ == (LiveEventView::Order {
            symbol: symbol@,
            order: Order { req: Status::Unset, status: Status::Rejected, ..order },
        }),
{
    let mut order = order;
    order.req = Status::Unset;
    order.status = Status::Rejected;
    LiveEvent::Order { symbol, order }
}

} // verus!
