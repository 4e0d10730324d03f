//! Approving a vendor application: who may, and which applications can be.

use vstd::prelude::*;
use vstd::string::*;
use crate::error::{AppError, AppErrorView, fails_with};
use crate::text::{join2, join3, str_equal};

verus! {

/// A vendor application as stored. Ids are UUIDs held as their 128-bit value.
#[derive(Debug)]
pub struct VendorApplication {
    pub id: u128,
    pub user_id: u128,
    pub store_name: String,
    pub store_address: String,
    pub city: String,
    pub status: String,
}

/// The answer to an approval.
#[derive(Debug)]
pub struct ApprovalReply {
    pub approved: bool,
    pub user_id: u128,
    pub message: String,
}

/// The statuses in which an application can still be approved.
pub open spec fn is_open_application(status: Seq<char>) -> bool {
    status == "pending"@ || status == "reviewing"@
}

/// An application can be approved exactly while its status is "pending" or
/// "reviewing"; any other status (approved, rejected, or anything else) is
/// closed.
pub proof fn lemma_open_applications(status: Seq<char>)
    ensures
        is_open_application(status) <==> (status == "pending"@ || status == "reviewing"@),
        status != "pending"@ && status != "reviewing"@ ==> !is_open_application(status),
{
}

/// Only an admin, by the role the database holds for the caller (not the
/// one in the token), may approve applications.
pub fn check_admin_role(role: &str) -> (r: Result<(), AppError>)
    ensures
        role@ == "admin"@ ==> r is Ok,
        role@ != "admin"@ ==> fails_with(r, AppErrorView::Forbidden("Admin access required"@)),
{
    if !str_equal(role, "admin") {
        return Err(AppError::Forbidden(String::from_str("Admin access required")));
    }
    Ok(())
}

/// The decision on the application to approve (`None` where there is no
/// such application): it must exist and still be pending or under review.
pub fn check_application(app: Option<VendorApplication>) -> (r: Result<VendorApplication, AppError>)
    ensures
        app is None ==> fails_with(r, AppErrorView::NotFound("Application not found"@)),
        app is Some && !is_open_application(app->0.status@) ==> fails_with(
            r,
            AppErrorView::ValidationError(
                "Application is already '"@ + app->0.status@ + "'"@,
            ),
        ),
        app is Some && is_open_application(app->0.status@) ==> r == Ok::<
            VendorApplication,
            AppError,
        >(app->0),
        r is Ok ==> is_open_application(r->Ok_0.status@),
        app is Some && app->0.status@ != "pending"@ && app->0.status@ != "reviewing"@ ==> fails_with(
            r,
            AppErrorView::ValidationError(
                "Application is already '"@ + app->0.status@ + "'"@,
            ),
        ),
        r is Ok ==> r->Ok_0.status@ == "pending"@ || r->Ok_0.status@ == "reviewing"@,
{
    match app {
        None => Err(AppError::NotFound(String::from_str("Application not found"))),
        Some(a) => {
            if !str_equal(a.status.as_str(), "pending") && !str_equal(a.status.as_str(), "reviewing") {
                let text = join3("Application is already '", a.status.as_str(), "'");
                return Err(AppError::ValidationError(text));
            }
            Ok(a)
        },
    }
}

/// The answer to an approval that was written.
pub fn approval_reply(app: &VendorApplication) -> (r: ApprovalReply)
    ensures
        r.approved,
        r.user_id == app.user_id,
        r.message@ == app.store_name@ + " is now a vendor — store setup pending"@,
{
    let message = join2(app.store_name.as_str(), " is now a vendor — store setup pending");
    ApprovalReply { approved: true, user_id: app.user_id, message }
}

} // verus!
