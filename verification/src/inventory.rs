//! Changing a book in a vendor's inventory.

use vstd::prelude::*;
use vstd::string::*;
use crate::error::{AppError, AppErrorView, fails_with};

verus! {

/// The decision after the update of a book: where no row of the vendor's
/// bookstore was changed, the book is not in the vendor's inventory.
pub fn check_inventory_update(rows_affected: u64) -> (r: Result<(), AppError>)
    ensures
        rows_affected == 0 ==> fails_with(
            r,
            AppErrorView::NotFound("Book not found in your inventory"@),
        ),
        rows_affected != 0 ==> r is Ok,
{
    if rows_affected == 0 {
        return Err(AppError::NotFound(String::from_str("Book not found in your inventory")));
    }
    Ok(())
}

} // verus!
