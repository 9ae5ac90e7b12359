use vstd::prelude::*;
use num::Integer;

verus! {

/// `num::Integer::mod_floor` on `usize`. For an unsigned type the crate
/// computes `a % m`; it panics when `m` is zero, which `requires` leaves out.
#[verifier::external_body]
fn usize_mod_floor(a: usize, m: usize) -> (r: usize)
    requires
        m > 0,
    ensures
        r == a % m,
{
    a.mod_floor(&m)
}

/// `a + b` on a ring of `limit` positions.
pub open spec fn ring_add(limit: int, a: int, b: int) -> int {
    (a + b) % limit
}

/// The successor of `value` on a ring of `limit` positions.
pub open spec fn ring_succ(limit: int, value: int) -> int {
    ring_add(limit, value, 1)
}

/// The predecessor of `value` on a ring of `limit` positions.
pub open spec fn ring_pred(limit: int, value: int) -> int {
    ring_add(limit, value, limit - 1)
}

/// `(a + b)` reduced modulo `LIMIT`.
pub fn safe_add<const LIMIT: usize>(a: usize, b: usize) -> (r: usize)
    requires
        LIMIT > 0,
        a + b <= usize::MAX,
    ensures
        r == ring_add(LIMIT as int, a as int, b as int),
        r < LIMIT,
{
    usize_mod_floor(a + b, LIMIT)
}

/// The successor of `value` on a ring of `LIMIT` positions.
pub fn add1<const LIMIT: usize>(value: usize) -> (r: usize)
    requires
        LIMIT > 0,
        value < usize::MAX,
    ensures
        r == ring_succ(LIMIT as int, value as int),
{
    safe_add::<LIMIT>(value, 1)
}

/// The predecessor of `value` on a ring of `LIMIT` positions.
pub fn sub1<const LIMIT: usize>(value: usize) -> (r: usize)
    requires
        LIMIT > 0,
        value + LIMIT - 1 <= usize::MAX,
    ensures
        r == ring_pred(LIMIT as int, value as int),
{
    safe_add::<LIMIT>(value, LIMIT - 1)
}

} // verus!
