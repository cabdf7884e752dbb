//! Request bodies accepted by the order service.

use vstd::prelude::*;

verus! {

/// One requested order line: the catalog item the table is asking for.
#[derive(Clone, Debug)]
pub struct Order {
    pub menu_item_id: u32,
}

/// A batch request for one table: an optional idempotency key and the
/// ordered sequence of requested items.
#[derive(Clone, Debug)]
pub struct Orders {
    pub idempotency_key: Option<String>,
    pub orders: Vec<Order>,
}

/// The idempotency key of a batch, as a sequence of characters.
pub open spec fn key_of(req: &Orders) -> Option<Seq<char>> {
    match req.idempotency_key {
        Some(ref k) => Some(k@),
        None => None,
    }
}

/// The requested menu item ids of a batch, in request order.
pub open spec fn item_ids_of(req: &Orders) -> Seq<u32> {
    req.orders@.map(|i: int, o: Order| o.menu_item_id)
}

} // verus!
