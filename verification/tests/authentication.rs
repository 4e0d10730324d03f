use vendor_api::auth::{access_credentials, authorize_claims, vendor_identity, Claims, VendorAuth, VendorUser};
use vendor_api::error::AppError;

const USER: &str = "550e8400-e29b-41d4-a716-446655440000";
const USER_VALUE: u128 = 0x550e8400_e29b_41d4_a716_446655440000;

fn claims(sub: &str, role: &str) -> Claims {
    Claims { sub: sub.to_string(), username: "ana".to_string(), role: role.to_string(), exp: 2_000_000_000 }
}

fn vendor(bookstore_id: Option<u128>) -> VendorAuth {
    VendorAuth(VendorUser { user_id: 1, _username: "ana".to_string(), bookstore_id })
}

#[test]
fn bookstore_is_required_where_present() {
    assert_eq!(vendor(Some(9)).require_bookstore().unwrap(), 9);
    let err = vendor(None).require_bookstore().unwrap_err();
    assert_eq!(err.status_code(), 403);
    assert_eq!(
        err.message(),
        "Forbidden: No bookstore set up yet. Complete store setup first."
    );
}

#[test]
fn credentials_are_checked_in_order() {
    let e = access_credentials(false, Some("t".into()), Some("s".into())).unwrap_err();
    assert_eq!((e.status_code(), e.message()), (401, "Unauthorized: Could not read cookies".to_string()));
    let e = access_credentials(true, None, Some("s".into())).unwrap_err();
    assert_eq!((e.status_code(), e.message()), (401, "Unauthorized: No access token".to_string()));
    let e = access_credentials(true, Some("t".into()), None).unwrap_err();
    assert_eq!((e.status_code(), e.message()), (500, "Token error: JWT_SECRET not set".to_string()));
    let ok = access_credentials(true, Some("t".into()), Some("s".into())).unwrap();
    assert_eq!(ok, ("t".to_string(), "s".to_string()));
}

#[test]
fn undecodable_token_is_unauthorized() {
    let e = authorize_claims(Err("ExpiredSignature".to_string())).unwrap_err();
    assert_eq!(e.status_code(), 401);
    assert_eq!(e.message(), "Unauthorized: ExpiredSignature");
}

#[test]
fn readers_are_forbidden() {
    let e = authorize_claims(Ok(claims(USER, "reader"))).unwrap_err();
    assert_eq!(e.status_code(), 403);
    assert_eq!(e.message(), "Forbidden: Vendor access required");
    let e = authorize_claims(Ok(claims(USER, "Vendor"))).unwrap_err();
    assert_eq!(e.status_code(), 403);
}

#[test]
fn vendors_and_admins_get_their_user_id() {
    assert_eq!(authorize_claims(Ok(claims(USER, "vendor"))).unwrap(), (USER_VALUE, "ana".to_string()));
    assert_eq!(authorize_claims(Ok(claims(USER, "admin"))).unwrap(), (USER_VALUE, "ana".to_string()));
    let simple = "550e8400e29b41d4a716446655440000";
    assert_eq!(authorize_claims(Ok(claims(simple, "vendor"))).unwrap().0, USER_VALUE);
}

#[test]
fn a_user_id_that_is_no_uuid_is_a_token_error() {
    let e = authorize_claims(Ok(claims("not-a-uuid", "vendor"))).unwrap_err();
    assert_eq!(e.status_code(), 500);
    assert_eq!(e.message(), "Token error: Invalid user ID in token");
    assert!(matches!(authorize_claims(Ok(claims("", "admin"))), Err(AppError::TokenError(_))));
}

#[test]
fn identity_follows_the_parsed_id() {
    assert_eq!(vendor_identity(Some(5), claims(USER, "vendor")).unwrap(), (5, "ana".to_string()));
    let e = vendor_identity(None, claims(USER, "vendor")).unwrap_err();
    assert_eq!(e.message(), "Token error: Invalid user ID in token");
}
