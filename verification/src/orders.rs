//! Orders as a vendor sees them: listing a page of them, looking one up, and
//! moving one along its lifecycle.

use vstd::prelude::*;
use vstd::string::*;
use crate::auth::VendorAuth;
use crate::error::{AppError, AppErrorView, fails_with};
use crate::status::{is_valid_transition, valid_transition};
use crate::text::join3;

verus! {

/// `rust_decimal::Decimal`, carried through as an amount of money.
#[verifier::external_type_specification]
#[verifier::external_body]
pub struct ExDecimal(rust_decimal::Decimal);

/// One order in a listing. Ids are UUIDs held as their 128-bit value;
/// times are microseconds since the Unix epoch.
#[derive(Debug)]
pub struct VendorOrderSummary {
    pub id: u128,
    pub status: String,
    pub total_amount: rust_decimal::Decimal,
    pub delivery_fee: rust_decimal::Decimal,
    pub address: String,
    pub placed_at: i64,
    pub updated_at: i64,
    pub item_count: i64,
}

/// The filters of an order listing: a status, a page size, and a time
/// before which orders must have been placed (microseconds since the epoch).
#[derive(Debug)]
pub struct VendorOrderQuery {
    pub status: Option<String>,
    pub limit: Option<i64>,
    pub cursor: Option<i64>,
}

/// A page of orders: the orders, how many orders match the status filter,
/// where the next page starts, and whether there is one.
#[derive(Debug)]
pub struct VendorOrderListResponse {
    pub orders: Vec<VendorOrderSummary>,
    pub total: i64,
    pub next_cursor: Option<i64>,
    pub has_more: bool,
}

/// What a listing asks of the database.
#[derive(Debug)]
pub struct OrderListPlan {
    pub bookstore_id: u128,
    pub status: Option<String>,
    pub cursor: Option<i64>,
    /// The page size.
    pub limit: i64,
    /// How many rows to fetch: one more than the page size, to learn whether
    /// another page follows.
    pub fetch_limit: i64,
}

/// A request to move an order to another status.
#[derive(Debug)]
pub struct UpdateStatusRequest {
    pub status: String,
}

/// The write that an accepted status change makes.
#[derive(Debug)]
pub struct StatusChange {
    pub order_id: u128,
    pub status: String,
}

/// The answer to an accepted status change.
#[derive(Debug)]
pub struct StatusChangeReply {
    pub id: u128,
    pub status: String,
    pub message: String,
}

/// The page size for a requested one: 20 by default, kept within 1 to 50.
pub open spec fn spec_page_limit(requested: Option<i64>) -> i64 {
    let n = match requested {
        Some(n) => n,
        None => 20,
    };
    if n < 1 {
        1
    } else if n > 50 {
        50
    } else {
        n
    }
}

/// The page size for a requested one.
pub fn page_limit(requested: Option<i64>) -> (r: i64)
    ensures
        r == spec_page_limit(requested),
        1 <= r <= 50,
        requested is None ==> r == 20,
        requested is Some && 1 <= requested->0 <= 50 ==> r == requested->0,
        requested is Some && requested->0 < 1 ==> r == 1,
        requested is Some && requested->0 > 50 ==> r == 50,
{
    let n: i64 = match requested {
        Some(n) => n,
        None => 20,
    };
    if n < 1 {
        1
    } else if n > 50 {
        50
    } else {
        n
    }
}

/// The page size honours any request from 1 to 50 exactly, defaults to 20,
/// and holds a request outside that range to its nearest end.
pub proof fn lemma_page_limit_honours_requests(requested: Option<i64>)
    ensures
        requested is None ==> spec_page_limit(requested) == 20,
        requested is Some && 1 <= requested->0 <= 50 ==> spec_page_limit(requested) == requested->0,
        requested is Some && requested->0 < 1 ==> spec_page_limit(requested) == 1,
        requested is Some && requested->0 > 50 ==> spec_page_limit(requested) == 50,
        1 <= spec_page_limit(requested) <= 50,
{
}

/// Asking for a larger page never gives a smaller one, and two requests
/// within 1..50 give pages of different sizes exactly when they differ.
pub proof fn lemma_page_limit_is_monotone(a: i64, b: i64)
    ensures
        a <= b ==> spec_page_limit(Some(a)) <= spec_page_limit(Some(b)),
        1 <= a <= 50 && 1 <= b <= 50 ==> (spec_page_limit(Some(a)) == spec_page_limit(Some(b)) <==> a
            == b),
{
}

/// The decisions of a listing before the database is asked: the vendor
/// must have a bookstore, and the page size is settled.
pub fn plan_order_list(auth: &VendorAuth, query: VendorOrderQuery) -> (r: Result<OrderListPlan, AppError>)
    ensures
        auth.0.bookstore_id is None ==> fails_with(
            r,
            AppErrorView::Forbidden("No bookstore set up yet. Complete store setup first."@),
        ),
        auth.0.bookstore_id is Some ==> r is Ok && r->Ok_0.bookstore_id == auth.0.bookstore_id->0
            && r->Ok_0.status == query.status && r->Ok_0.cursor == query.cursor && r->Ok_0.limit
            == spec_page_limit(query.limit) && r->Ok_0.fetch_limit == r->Ok_0.limit + 1,
{
    let bookstore_id = auth.require_bookstore()?;
    let limit = page_limit(query.limit);
    Ok(OrderListPlan {
        bookstore_id,
        status: query.status,
        cursor: query.cursor,
        limit,
        fetch_limit: limit + 1,
    })
}

/// The orders of a page: the first `limit` rows where more rows were
/// fetched than fit, else all of them.
pub open spec fn page_of<T>(rows: Seq<T>, limit: int) -> Seq<T> {
    if rows.len() > limit {
        rows.take(limit)
    } else {
        rows
    }
}

/// A page holds at most `limit` orders, the first ones fetched, in their
/// order; and where at most one row more than a page was fetched (as a
/// listing does), the page and the "more follow" flag account for every row.
pub proof fn lemma_page_shape<T>(rows: Seq<T>, limit: int)
    requires
        0 <= limit,
    ensures
        page_of(rows, limit).len() <= limit,
        page_of(rows, limit).len() == (if rows.len() > limit {
            limit
        } else {
            rows.len() as int
        }),
        forall|i: int| 0 <= i < page_of(rows, limit).len() ==> #[trigger] page_of(rows, limit)[i] == rows[i],
        rows.len() <= limit + 1 ==> rows.len() == page_of(rows, limit).len() + (if rows.len() > limit {
            1int
        } else {
            0int
        }),
{
}

/// The page made of the rows fetched for a listing (at most one more than
/// the page size): the first `limit` rows, whether more followed, and the
/// placing time of the page's last order as the cursor of the next page.
pub fn build_order_list(rows: Vec<VendorOrderSummary>, limit: i64, total: i64) -> (r:
    VendorOrderListResponse)
    requires
        0 <= limit,
    ensures
        r.has_more == (rows@.len() > limit),
        r.orders@ == page_of(rows@, limit as int),
        r.next_cursor == (if r.has_more && limit > 0 {
            Some(rows@[limit - 1].placed_at)
        } else {
            None
        }),
        r.total == total,
{
    let has_more = rows.len() as u64 > limit as u64;
    let mut orders = rows;
    if has_more {
        let keep: usize = limit as usize;
        orders.truncate(keep);
        assert(orders@ =~= rows@.take(limit as int));
    }
    let next_cursor = if has_more && orders.len() > 0 {
        Some(orders[orders.len() - 1].placed_at)
    } else {
        None
    };
    VendorOrderListResponse { orders, total, next_cursor, has_more }
}

/// An order that the lookup found, or the answer that it was not found.
pub fn require_order<T>(row: Option<T>) -> (r: Result<T, AppError>)
    ensures
        row is None ==> fails_with(r, AppErrorView::NotFound("Order not found"@)),
        row is Some ==> r == Ok::<T, AppError>(row->0),
{
    match row {
        Some(x) => Ok(x),
        None => Err(AppError::NotFound(String::from_str("Order not found"))),
    }
}

/// The text that refuses a status change.
pub open spec fn refused_transition_text(from: Seq<char>, to: Seq<char>) -> Seq<char> {
    "Cannot transition order from '"@ + from + "' to '"@ + to + "'"@
}

/// The decision on a status change, given the order's current status
/// (`None` where the vendor's bookstore has no such order): the order must
/// exist and the change must be a permitted transition.
pub fn check_status_update(order_id: u128, current: Option<String>, body: UpdateStatusRequest) -> (r:
    Result<StatusChange, AppError>)
    ensures
        current is None ==> fails_with(r, AppErrorView::NotFound("Order not found"@)),
        current is Some && !is_valid_transition(current->0@, body.status@) ==> fails_with(
            r,
            AppErrorView::ValidationError(refused_transition_text(current->0@, body.status@)),
        ),
        current is Some && is_valid_transition(current->0@, body.status@) ==> r is Ok
            && r->Ok_0.order_id == order_id && r->Ok_0.status@ == body.status@,
        r is Ok ==> current is Some && is_valid_transition(current->0@, r->Ok_0.status@),
{
    let current = require_order(current)?;
    if !valid_transition(current.as_str(), body.status.as_str()) {
        let head = join3("Cannot transition order from '", current.as_str(), "' to '");
        let text = join3(head.as_str(), body.status.as_str(), "'");
        return Err(AppError::ValidationError(text));
    }
    Ok(StatusChange { order_id, status: body.status })
}

/// The answer to a status change that was written.
pub fn status_change_reply(change: StatusChange) -> (r: StatusChangeReply)
    ensures
        r.id == change.order_id,
        r.status@ == change.status@,
        r.message@ == "Order moved to '"@ + change.status@ + "'"@,
{
    let message = join3("Order moved to '", change.status.as_str(), "'");
    StatusChangeReply { id: change.order_id, status: change.status, message }
}

} // verus!
