//! The counts on a vendor's dashboard.

use vstd::prelude::*;

verus! {

/// The counts of a vendor's dashboard (the revenue figures are added where
/// the response is written). Ids are UUIDs held as their 128-bit value.
#[derive(Debug)]
pub struct StoreStats {
    pub has_bookstore: bool,
    pub bookstore_id: Option<u128>,
    pub total_orders: i64,
    pub pending_orders: i64,
    /// Orders confirmed, being prepared, or in transit.
    pub active_orders: i64,
    pub total_books: i64,
    pub active_books: i64,
    /// Books out of stock.
    pub low_stock: i64,
}

impl StoreStats {
    /// The dashboard of a vendor without a bookstore: no store, and every
    /// count zero, so that the dashboard can prompt for the store's setup.
    pub fn without_bookstore() -> (r: StoreStats)
        ensures
            !r.has_bookstore,
            r.bookstore_id is None,
            r.total_orders == 0,
            r.pending_orders == 0,
            r.active_orders == 0,
            r.total_books == 0,
            r.active_books == 0,
            r.low_stock == 0,
    {
        StoreStats {
            has_bookstore: false,
            bookstore_id: None,
            total_orders: 0,
            pending_orders: 0,
            active_orders: 0,
            total_books: 0,
            active_books: 0,
            low_stock: 0,
        }
    }
}

} // verus!
