//! Who is calling: the claims of a vendor's access token, the checks made on
//! them, and the bookstore a vendor owns.

use vstd::prelude::*;
use vstd::string::*;
use crate::error::{AppError, AppErrorView, fails_with};
use crate::text::str_equal;

verus! {

/// The claims of an access token. Tokens are shared with the reader
/// service, which signs them with the same secret and the same shape.
#[derive(Debug, Clone)]
pub struct Claims {
    /// The user's id, as text.
    pub sub: String,
    pub username: String,
    /// One of "reader", "vendor" or "admin".
    pub role: String,
    pub exp: usize,
}

/// The vendor making a request. Ids are UUIDs held as their 128-bit value.
#[derive(Debug, Clone)]
pub struct VendorUser {
    pub user_id: u128,
    pub _username: String,
    /// The bookstore this vendor owns; `None` while the vendor, though
    /// approved, has not set up a store yet.
    pub bookstore_id: Option<u128>,
}

/// An authenticated vendor (or admin), as handed to every handler.
pub struct VendorAuth(pub VendorUser);

/// The roles that may use the vendor service.
pub open spec fn is_vendor_role(role: Seq<char>) -> bool {
    role == "vendor"@ || role == "admin"@
}

/// The 128-bit value of the UUID that `uuid::Uuid::parse_str` reads from a
/// text, or `None` where it refuses the text.
pub uninterp spec fn uuid_of(s: Seq<char>) -> Option<u128>;

/// The value of a hexadecimal digit (either letter case), or -1 for any
/// other character.
pub open spec fn hex_digit_value(c: char) -> int {
    if '0' <= c && c <= '9' {
        c as int - '0' as int
    } else if 'a' <= c && c <= 'f' {
        c as int - 'a' as int + 10
    } else if 'A' <= c && c <= 'F' {
        c as int - 'A' as int + 10
    } else {
        -1
    }
}

/// A text made only of hexadecimal digits.
pub open spec fn is_hex_text(s: Seq<char>) -> bool {
    forall|i: int| 0 <= i < s.len() ==> 0 <= #[trigger] hex_digit_value(s[i])
}

/// The number that a text of hexadecimal digits writes, most significant
/// digit first.
pub open spec fn hex_value(d: Seq<char>) -> int
    decreases d.len(),
{
    if d.len() == 0 {
        0
    } else {
        hex_value(d.drop_last()) * 16 + hex_digit_value(d.last())
    }
}

/// The 32 digits of a hyphenated UUID text (8-4-4-4-12), without hyphens.
pub open spec fn hyphenated_digits(s: Seq<char>) -> Seq<char> {
    s.subrange(0, 8) + s.subrange(9, 13) + s.subrange(14, 18) + s.subrange(19, 23) + s.subrange(
        24,
        36,
    )
}

/// A UUID written as 32 hexadecimal digits.
pub open spec fn is_simple_uuid_text(s: Seq<char>) -> bool {
    s.len() == 32 && is_hex_text(s)
}

/// A UUID written as hexadecimal digits in groups of 8-4-4-4-12, joined by
/// hyphens.
pub open spec fn is_hyphenated_uuid_text(s: Seq<char>) -> bool {
    &&& s.len() == 36
    &&& s[8] == '-' && s[13] == '-' && s[18] == '-' && s[23] == '-'
    &&& is_hex_text(hyphenated_digits(s))
}

/// A UUID text in the simple or the hyphenated form.
pub open spec fn spells_uuid(s: Seq<char>) -> bool {
    is_simple_uuid_text(s) || is_hyphenated_uuid_text(s)
}

/// The 32 digits of a UUID text in the simple or the hyphenated form.
pub open spec fn uuid_digits(s: Seq<char>) -> Seq<char> {
    if s.len() == 32 {
        s
    } else {
        hyphenated_digits(s)
    }
}

/// Calls `uuid::Uuid::parse_str` and takes the UUID's 128-bit value
/// (`as_u128`). The contract names the outcome `uuid_of` of the text; of a
/// text in the simple form (32 hexadecimal digits) or the hyphenated form
/// (8-4-4-4-12 digits joined by hyphens), in either letter case, it claims
/// what the crate's `parse_simple`, `parse_hyphenated` and `decode_hex32`
/// do: the value is the number the 32 digits write, most significant first
/// (`as_u128` reads the 16 bytes big-endian). Of the braced and URN forms,
/// and of the texts it refuses, it claims nothing more.
#[verifier::external_body]
fn parse_uuid(s: &str) -> (r: Option<u128>)
    ensures
        r == uuid_of(s@),
        spells_uuid(s@) ==> r is Some && r->0 as int == hex_value(uuid_digits(s@)),
{
    match uuid::Uuid::parse_str(s) {
        Ok(id) => Some(id.as_u128()),
        Err(_) => None,
    }
}

impl VendorAuth {
    /// The vendor's bookstore, for handlers that cannot work without one.
    pub fn require_bookstore(&self) -> (r: Result<u128, AppError>)
        ensures
            self.0.bookstore_id is Some ==> r == Ok::<u128, AppError>(self.0.bookstore_id->0),
            self.0.bookstore_id is None ==> fails_with(
                r,
                AppErrorView::Forbidden("No bookstore set up yet. Complete store setup first."@),
            ),
    {
        match self.0.bookstore_id {
            Some(id) => Ok(id),
            None => Err(AppError::Forbidden(
                String::from_str("No bookstore set up yet. Complete store setup first."),
            )),
        }
    }
}

/// The checks made before a token is decoded: the cookies could be read, the
/// `access_token` cookie is present, and the signing secret is configured.
/// Gives the token and the secret.
pub fn access_credentials(cookies_read: bool, token: Option<String>, secret: Option<String>) -> (r:
    Result<(String, String), AppError>)
    ensures
        !cookies_read ==> fails_with(r, AppErrorView::Unauthorized("Could not read cookies"@)),
        cookies_read && token is None ==> fails_with(
            r,
            AppErrorView::Unauthorized("No access token"@),
        ),
        cookies_read && token is Some && secret is None ==> fails_with(
            r,
            AppErrorView::TokenError("JWT_SECRET not set"@),
        ),
        cookies_read && token is Some && secret is Some ==> r is Ok && r->Ok_0.0@ == token->0@
            && r->Ok_0.1@ == secret->0@,
{
    if !cookies_read {
        return Err(AppError::Unauthorized(String::from_str("Could not read cookies")));
    }
    match token {
        None => Err(AppError::Unauthorized(String::from_str("No access token"))),
        Some(t) => match secret {
            None => Err(AppError::TokenError(String::from_str("JWT_SECRET not set"))),
            Some(s) => Ok((t, s)),
        },
    }
}

/// What follows the reading of the user's id from the claims: the id and
/// the username, or a token error where the id could not be read.
pub fn vendor_identity(user_id: Option<u128>, claims: Claims) -> (r: Result<(u128, String), AppError>)
    ensures
        user_id is None ==> fails_with(r, AppErrorView::TokenError("Invalid user ID in token"@)),
        user_id is Some ==> r is Ok && r->Ok_0.0 == user_id->0 && r->Ok_0.1@ == claims.username@,
{
    match user_id {
        None => Err(AppError::TokenError(String::from_str("Invalid user ID in token"))),
        Some(id) => Ok((id, claims.username)),
    }
}

/// The decision on a decoded token: a token that failed to decode is
/// unauthorized (with the decoder's text), a role other than vendor or admin
/// is forbidden, and the user's id must be a UUID.
pub fn authorize_claims(decoded: Result<Claims, String>) -> (r: Result<(u128, String), AppError>)
    ensures
        decoded is Err ==> fails_with(r, AppErrorView::Unauthorized(decoded->Err_0@)),
        decoded is Ok && !is_vendor_role(decoded->Ok_0.role@) ==> fails_with(
            r,
            AppErrorView::Forbidden("Vendor access required"@),
        ),
        decoded is Ok && is_vendor_role(decoded->Ok_0.role@) && uuid_of(decoded->Ok_0.sub@) is None
            ==> fails_with(r, AppErrorView::TokenError("Invalid user ID in token"@)),
        decoded is Ok && is_vendor_role(decoded->Ok_0.role@) && uuid_of(decoded->Ok_0.sub@) is Some
            ==> r is Ok && r->Ok_0.0 == uuid_of(decoded->Ok_0.sub@)->0 && r->Ok_0.1@
            == decoded->Ok_0.username@,
        decoded is Ok && is_vendor_role(decoded->Ok_0.role@) && spells_uuid(decoded->Ok_0.sub@)
            ==> r is Ok && r->Ok_0.0 as int == hex_value(uuid_digits(decoded->Ok_0.sub@)),
        r is Ok ==> decoded is Ok && is_vendor_role(decoded->Ok_0.role@),
{
    match decoded {
        Err(msg) => Err(AppError::Unauthorized(msg)),
        Ok(claims) => {
            if !str_equal(claims.role.as_str(), "vendor") && !str_equal(
                claims.role.as_str(),
                "admin",
            ) {
                return Err(AppError::Forbidden(String::from_str("Vendor access required")));
            }
            let user_id = parse_uuid(claims.sub.as_str());
            vendor_identity(user_id, claims)
        },
    }
}

/// The digits of a text in hexadecimal all lie in 0..16, and so do those of
/// its prefix without the last digit.
proof fn lemma_hex_text_drop_last(d: Seq<char>)
    requires
        is_hex_text(d),
        d.len() > 0,
    ensures
        is_hex_text(d.drop_last()),
        0 <= hex_digit_value(d.last()) < 16,
{
    assert forall|i: int| 0 <= i < d.drop_last().len() implies 0 <= #[trigger] hex_digit_value(
        d.drop_last()[i],
    ) by {
        assert(d.drop_last()[i] == d[i]);
        assert(0 <= hex_digit_value(d[i]));
    }
    let k: int = d.len() - 1;
    assert(0 <= hex_digit_value(d[k]));
    assert(d.last() == d[k]);
}

/// Two texts of hexadecimal digits of one length write the same number only
/// where they hold the same digit (up to letter case) at every position: the
/// number determines every digit.
pub proof fn lemma_hex_value_determines_digits(a: Seq<char>, b: Seq<char>)
    requires
        is_hex_text(a),
        is_hex_text(b),
        a.len() == b.len(),
        hex_value(a) == hex_value(b),
    ensures
        forall|i: int| 0 <= i < a.len() ==> hex_digit_value(#[trigger] a[i]) == hex_digit_value(b[i]),
    decreases a.len(),
{
    if a.len() > 0 {
        lemma_hex_text_drop_last(a);
        lemma_hex_text_drop_last(b);
        let x = hex_value(a.drop_last());
        let y = hex_value(b.drop_last());
        let p = hex_digit_value(a.last());
        let q = hex_digit_value(b.last());
        assert(x * 16 + p == y * 16 + q);
        assert(p == q && x == y) by (nonlinear_arith)
            requires
                x * 16 + p == y * 16 + q,
                0 <= p < 16,
                0 <= q < 16,
        ;
        lemma_hex_value_determines_digits(a.drop_last(), b.drop_last());
        assert forall|i: int| 0 <= i < a.len() implies hex_digit_value(#[trigger] a[i])
            == hex_digit_value(b[i]) by {
            if i < a.len() - 1 {
                assert(a.drop_last()[i] == a[i]);
                assert(b.drop_last()[i] == b[i]);
            } else {
                assert(a.last() == a[i]);
                assert(b.last() == b[i]);
            }
        }
    }
}

/// The user id read from a token is the number that the UUID text writes:
/// two UUID texts that differ in the value of some digit give different user
/// ids, so no token names another user than the one its text spells.
pub proof fn lemma_distinct_uuid_texts_give_distinct_ids(s: Seq<char>, t: Seq<char>, i: int)
    requires
        spells_uuid(s),
        spells_uuid(t),
        0 <= i < 32,
        hex_digit_value(uuid_digits(s)[i]) != hex_digit_value(uuid_digits(t)[i]),
    ensures
        hex_value(uuid_digits(s)) != hex_value(uuid_digits(t)),
{
    assert(uuid_digits(s).len() == 32);
    assert(uuid_digits(t).len() == 32);
    if hex_value(uuid_digits(s)) == hex_value(uuid_digits(t)) {
        lemma_hex_value_determines_digits(uuid_digits(s), uuid_digits(t));
        assert(hex_digit_value(uuid_digits(s)[i]) == hex_digit_value(uuid_digits(t)[i]));
    }
}

} // verus!
