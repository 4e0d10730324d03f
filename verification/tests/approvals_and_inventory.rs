use vendor_api::applications::{approval_reply, check_admin_role, check_application, VendorApplication};
use vendor_api::inventory::check_inventory_update;
use vendor_api::stats::StoreStats;

fn application(status: &str) -> VendorApplication {
    VendorApplication {
        id: 1,
        user_id: 77,
        store_name: "Paper Lantern".to_string(),
        store_address: "2 Elm St".to_string(),
        city: "Porto".to_string(),
        status: status.to_string(),
    }
}

#[test]
fn only_admins_approve() {
    assert!(check_admin_role("admin").is_ok());
    for role in ["vendor", "reader", "Admin", ""] {
        let e = check_admin_role(role).unwrap_err();
        assert_eq!(e.status_code(), 403);
        assert_eq!(e.message(), "Forbidden: Admin access required");
    }
}

#[test]
fn open_applications_can_be_approved() {
    assert_eq!(check_application(Some(application("pending"))).unwrap().user_id, 77);
    assert_eq!(check_application(Some(application("reviewing"))).unwrap().status, "reviewing");
}

#[test]
fn closed_or_missing_applications_cannot() {
    let e = check_application(Some(application("approved"))).unwrap_err();
    assert_eq!(e.status_code(), 422);
    assert_eq!(e.message(), "Validation error: Application is already 'approved'");
    let e = check_application(None).unwrap_err();
    assert_eq!(e.status_code(), 404);
    assert_eq!(e.message(), "Not found: Application not found");
}

#[test]
fn approval_announces_the_new_vendor() {
    let reply = approval_reply(&application("pending"));
    assert!(reply.approved);
    assert_eq!(reply.user_id, 77);
    assert_eq!(reply.message, "Paper Lantern is now a vendor — store setup pending");
}

#[test]
fn untouched_inventory_row_is_not_found() {
    let e = check_inventory_update(0).unwrap_err();
    assert_eq!(e.status_code(), 404);
    assert_eq!(e.message(), "Not found: Book not found in your inventory");
    assert!(check_inventory_update(1).is_ok());
    assert!(check_inventory_update(3).is_ok());
}

#[test]
fn dashboard_without_a_store_is_zeroed() {
    let s = StoreStats::without_bookstore();
    assert!(!s.has_bookstore);
    assert_eq!(s.bookstore_id, None);
    assert_eq!(
        (s.total_orders, s.pending_orders, s.active_orders, s.total_books, s.active_books, s.low_stock),
        (0, 0, 0, 0, 0, 0)
    );
}
