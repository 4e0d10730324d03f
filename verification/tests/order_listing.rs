use rust_decimal::Decimal;
use vendor_api::auth::{VendorAuth, VendorUser};
use vendor_api::orders::{build_order_list, page_limit, plan_order_list, require_order, VendorOrderQuery, VendorOrderSummary};

fn order(n: u128, placed_at: i64) -> VendorOrderSummary {
    VendorOrderSummary {
        id: n,
        status: "pending".to_string(),
        total_amount: Decimal::new(2599, 2),
        delivery_fee: Decimal::new(300, 2),
        address: "1 Main St".to_string(),
        placed_at,
        updated_at: placed_at,
        item_count: 2,
    }
}

fn vendor(bookstore_id: Option<u128>) -> VendorAuth {
    VendorAuth(VendorUser { user_id: 1, _username: "ana".to_string(), bookstore_id })
}

#[test]
fn page_size_defaults_and_is_clamped() {
    assert_eq!(page_limit(None), 20);
    assert_eq!(page_limit(Some(0)), 1);
    assert_eq!(page_limit(Some(-7)), 1);
    assert_eq!(page_limit(Some(1)), 1);
    assert_eq!(page_limit(Some(37)), 37);
    assert_eq!(page_limit(Some(50)), 50);
    assert_eq!(page_limit(Some(51)), 50);
    assert_eq!(page_limit(Some(i64::MAX)), 50);
}

#[test]
fn plan_asks_one_row_more_than_a_page() {
    let q = VendorOrderQuery { status: Some("pending".to_string()), limit: Some(10), cursor: Some(99) };
    let plan = plan_order_list(&vendor(Some(3)), q).unwrap();
    assert_eq!(plan.bookstore_id, 3);
    assert_eq!(plan.status.as_deref(), Some("pending"));
    assert_eq!(plan.cursor, Some(99));
    assert_eq!((plan.limit, plan.fetch_limit), (10, 11));
    let q = VendorOrderQuery { status: None, limit: None, cursor: None };
    let err = plan_order_list(&vendor(None), q).unwrap_err();
    assert_eq!(err.status_code(), 403);
}

#[test]
fn a_full_fetch_means_more_pages() {
    let rows = vec![order(1, 100), order(2, 200), order(3, 300)];
    let page = build_order_list(rows, 2, 17);
    assert!(page.has_more);
    assert_eq!(page.orders.iter().map(|o| o.id).collect::<Vec<_>>(), vec![1, 2]);
    assert_eq!(page.next_cursor, Some(200));
    assert_eq!(page.total, 17);
}

#[test]
fn a_short_fetch_is_the_last_page() {
    let page = build_order_list(vec![order(1, 100), order(2, 200)], 2, 2);
    assert!(!page.has_more);
    assert_eq!(page.orders.len(), 2);
    assert_eq!(page.next_cursor, None);
    let empty = build_order_list(Vec::new(), 20, 0);
    assert!(!empty.has_more);
    assert!(empty.orders.is_empty());
    assert_eq!(empty.next_cursor, None);
}

#[test]
fn a_zero_page_has_no_cursor() {
    let page = build_order_list(vec![order(1, 100)], 0, 1);
    assert!(page.has_more);
    assert!(page.orders.is_empty());
    assert_eq!(page.next_cursor, None);
}

#[test]
fn lookups_that_find_nothing_are_not_found() {
    assert_eq!(require_order(Some(5)).unwrap(), 5);
    let err = require_order::<u8>(None).unwrap_err();
    assert_eq!(err.status_code(), 404);
    assert_eq!(err.message(), "Not found: Order not found");
}
