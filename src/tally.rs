//! Sample count of a running statistic.
use vstd::prelude::*;

verus! {

/// Weight of an entry: the given count, or one sample where none is given.
pub open spec fn weight(count: Option<u64>) -> nat {
    match count {
        Some(n) => n as nat,
        None => 1,
    }
}

/// The sample count after an entry of the given weight is added to `total`,
/// or `None` where the sum does not fit in a `u64`.
pub fn entry_count(total: u64, count: Option<u64>) -> (r: Option<u64>)
    ensures
        total + weight(count) <= u64::MAX ==> r == Some((total + weight(count)) as u64),
        total + weight(count) > u64::MAX ==> r.is_none(),
{
    let n: u64 = match count {
        Some(n) => n,
        None => 1,
    };
    total.checked_add(n)
}

} // verus!
