//! The order status lifecycle: pending -> confirmed -> preparing ->
//! in_transit -> delivered.

use vstd::prelude::*;
use crate::text::str_equal;

verus! {

/// The statuses of the lifecycle, in the order in which listings sort them.
pub open spec fn status_rank(s: Seq<char>) -> int {
    if s == "pending"@ {
        1
    } else if s == "confirmed"@ {
        2
    } else if s == "preparing"@ {
        3
    } else if s == "in_transit"@ {
        4
    } else if s == "delivered"@ {
        5
    } else if s == "cancelled"@ {
        6
    } else {
        0
    }
}

/// The transitions a vendor may make on an order.
pub open spec fn is_valid_transition(from: Seq<char>, to: Seq<char>) -> bool {
    ||| from == "pending"@ && to == "confirmed"@
    ||| from == "confirmed"@ && to == "preparing"@
    ||| from == "preparing"@ && to == "in_transit"@
    ||| from == "in_transit"@ && to == "delivered"@
}

/// Whether an order may move from status `from` to status `to`.
pub fn valid_transition(from: &str, to: &str) -> (r: bool)
    ensures
        r == is_valid_transition(from@, to@),
{
    (str_equal(from, "pending") && str_equal(to, "confirmed"))
        || (str_equal(from, "confirmed") && str_equal(to, "preparing"))
        || (str_equal(from, "preparing") && str_equal(to, "in_transit"))
        || (str_equal(from, "in_transit") && str_equal(to, "delivered"))
}

/// The status names are pairwise distinct.
proof fn reveal_status_names()
    ensures
        "pending"@ != "confirmed"@,
        "pending"@ != "preparing"@,
        "pending"@ != "in_transit"@,
        "pending"@ != "delivered"@,
        "pending"@ != "cancelled"@,
        "confirmed"@ != "preparing"@,
        "confirmed"@ != "in_transit"@,
        "confirmed"@ != "delivered"@,
        "confirmed"@ != "cancelled"@,
        "preparing"@ != "in_transit"@,
        "preparing"@ != "delivered"@,
        "preparing"@ != "cancelled"@,
        "in_transit"@ != "delivered"@,
        "in_transit"@ != "cancelled"@,
        "delivered"@ != "cancelled"@,
{
    reveal_strlit("pending");
    reveal_strlit("confirmed");
    reveal_strlit("preparing");
    reveal_strlit("in_transit");
    reveal_strlit("delivered");
    reveal_strlit("cancelled");
    assert("pending"@.len() == 7 && "pending"@[0] == 'p');
    assert("confirmed"@.len() == 9 && "confirmed"@[0] == 'c' && "confirmed"@[1] == 'o');
    assert("preparing"@.len() == 9 && "preparing"@[0] == 'p');
    assert("in_transit"@.len() == 10);
    assert("delivered"@.len() == 9 && "delivered"@[0] == 'd');
    assert("cancelled"@.len() == 9 && "cancelled"@[0] == 'c' && "cancelled"@[1] == 'a');
}

/// Every permitted transition moves an order exactly one step forward in
/// the lifecycle, from one of the first four statuses.
pub proof fn lemma_transition_advances_one_step(from: Seq<char>, to: Seq<char>)
    requires
        is_valid_transition(from, to),
    ensures
        1 <= status_rank(from) <= 4,
        status_rank(to) == status_rank(from) + 1,
{
    reveal_status_names();
}

/// A status has at most one permitted successor.
pub proof fn lemma_successor_is_unique(from: Seq<char>, a: Seq<char>, b: Seq<char>)
    requires
        is_valid_transition(from, a),
        is_valid_transition(from, b),
    ensures
        a == b,
{
    reveal_status_names();
}

/// Delivered and cancelled orders can no longer change status, and no order
/// can be moved back to pending or into cancelled.
pub proof fn lemma_terminal_statuses(s: Seq<char>)
    ensures
        !is_valid_transition("delivered"@, s),
        !is_valid_transition("cancelled"@, s),
        !is_valid_transition(s, "pending"@),
        !is_valid_transition(s, "cancelled"@),
{
    reveal_status_names();
}

/// A sequence of statuses in which each step is a permitted transition has
/// at most five entries: no order changes status more than four times, and a
/// history of four changes runs from pending to delivered.
pub proof fn lemma_lifecycle_is_bounded(path: Seq<Seq<char>>)
    requires
        path.len() >= 1,
        forall|i: int| 0 <= i < path.len() - 1 ==> #[trigger] is_valid_transition(path[i], path[i + 1]),
    ensures
        path.len() >= 2 ==> status_rank(path.last()) == status_rank(path[0]) + path.len() - 1,
        path.len() <= 5,
        path.len() == 5 ==> path[0] == "pending"@ && path.last() == "delivered"@,
    decreases path.len(),
{
    reveal_status_names();
    if path.len() >= 2 {
        let prefix = path.drop_last();
        assert forall|i: int| 0 <= i < prefix.len() - 1 implies #[trigger] is_valid_transition(prefix[i], prefix[i + 1]) by {
            assert(prefix[i] == path[i] && prefix[i + 1] == path[i + 1]);
            assert(is_valid_transition(path[i], path[i + 1]));
        }
        lemma_lifecycle_is_bounded(prefix);
        let k: int = path.len() - 2;
        assert(is_valid_transition(path[k], path[k + 1]));
        lemma_transition_advances_one_step(path[k], path[k + 1]);
        assert(prefix.last() == path[k]);
        assert(path.last() == path[k + 1]);
        let z: int = 0;
        assert(is_valid_transition(path[z], path[z + 1]));
        lemma_transition_advances_one_step(path[z], path[z + 1]);
    }
}

} // verus!
