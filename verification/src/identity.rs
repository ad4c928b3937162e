//! How a store assigns identities: 1 first, then one more than the largest
//! in use, for as long as the identity type has room.
//!
//! The store assigns them itself, so that it knows before it writes that the
//! identity fits the identity type; the database is handed the identity with
//! the row. The rule looks at the rows that are there. The library deletes
//! none, so it gives no identity twice; but where another tool has deleted
//! the rows with the largest identities, theirs are given again, which the
//! database's own `AUTOINCREMENT` would not do.

use vstd::prelude::*;

verus! {

/// `id` is the identity that follows those in `used`: at least 1, not in
/// use, above all that are, and directly above the largest one.
pub open spec fn follows(used: Set<int>, id: int) -> bool {
    &&& id >= 1
    &&& !used.contains(id)
    &&& forall|k: int| used.contains(k) ==> k < id
    &&& (id == 1 || used.contains(id - 1))
}

/// The identity that a store hands out next, given those in use.
pub open spec fn next_id(used: Set<int>) -> int {
    choose|id: int| follows(used, id)
}

/// Some identity follows those in `used`, and the identity type has room for
/// it.
pub open spec fn has_room(used: Set<int>) -> bool {
    follows(used, next_id(used)) && next_id(used) <= u32::MAX
}

/// `largest` is the largest member of `used`, or `None` where `used` is
/// empty.
pub open spec fn tops(used: Set<int>, largest: Option<i64>) -> bool {
    match largest {
        None => forall|k: int| !used.contains(k),
        Some(top) => used.contains(top as int) && forall|k: int| used.contains(k) ==> k <= top,
    }
}

/// The identity after `largest`, or `None` where the identity type has no
/// room for it.
pub open spec fn identity_after(largest: Option<i64>) -> Option<u32> {
    match largest {
        None => Some(1u32),
        Some(top) => if top < 1 {
            Some(1u32)
        } else if top >= u32::MAX {
            None
        } else {
            Some((top + 1) as u32)
        },
    }
}

/// Computes the identity to hand out, given the largest in use.
pub fn next_identity(largest: Option<i64>) -> (next: Option<u32>)
    ensures
        next == identity_after(largest),
{
    match largest {
        None => Some(1),
        Some(top) => {
            if top < 1 {
                Some(1)
            } else if top >= u32::MAX as i64 {
                None
            } else {
                let next: i64 = top + 1;
                Some(next as u32)
            }
        },
    }
}

/// At most one identity follows a given set.
pub proof fn follows_is_unique(used: Set<int>, a: int, b: int)
    requires
        follows(used, a),
        follows(used, b),
    ensures
        a == b,
{
}

/// Once some identity is known to follow `used`, it is the next one.
pub proof fn next_id_is(used: Set<int>, id: int)
    requires
        follows(used, id),
    ensures
        next_id(used) == id,
{
    follows_is_unique(used, id, next_id(used));
}

/// Identities that lie between 1 and `bound` have one that follows them, no
/// more than one above `bound`.
pub proof fn bounded_identities_have_next(used: Set<int>, bound: int)
    requires
        0 <= bound,
        forall|k: int| used.contains(k) ==> 1 <= k <= bound,
    ensures
        follows(used, next_id(used)),
        1 <= next_id(used) <= bound + 1,
    decreases bound,
{
    if bound == 0 {
        next_id_is(used, 1);
    } else if used.contains(bound) {
        next_id_is(used, bound + 1);
    } else {
        bounded_identities_have_next(used, bound - 1);
    }
}

/// The identity computed from the largest in use is the next one; where
/// none is computed, the next one is beyond the identity type.
pub proof fn identity_after_is_next(used: Set<int>, largest: Option<i64>)
    requires
        tops(used, largest),
    ensures
        match identity_after(largest) {
            Some(id) => next_id(used) == id && has_room(used),
            None => !has_room(used),
        },
{
    match largest {
        None => {
            next_id_is(used, 1);
        },
        Some(top) => {
            if top < 1 {
                next_id_is(used, 1);
            } else {
                next_id_is(used, top + 1);
            }
        },
    }
}

} // verus!
