use vstd::prelude::*;

use crate::decimal::DslaDecimal;

verus! {

/// Enum defining the status of one period
#[derive(Debug, PartialEq, Eq, Clone, Copy, Structural)]
pub enum Status {
    /// Period wasn't verified yet
    NotVerified,
    /// Period was respected with `value`
    Respected { value: DslaDecimal },
    /// Period wasn't respected with `value`
    NotRespected { value: DslaDecimal },
}

/// the registry with the stored status of each period after validation
#[derive(Debug)]
pub struct StatusRegistry {
    pub status_registry: Vec<Status>,
}

/// One step of the registry: the length is kept, and every entry either keeps its value
/// or goes from `NotVerified` to a terminal status.
pub open spec fn registry_step(before: Seq<Status>, after: Seq<Status>) -> bool {
    &&& before.len() == after.len()
    &&& forall|i: int|
        0 <= i < before.len() ==> #[trigger] after[i] == before[i] || (before[i] is NotVerified
            && !(after[i] is NotVerified))
}

/// Steps compose: over any run of operations an entry changes at most once, from
/// `NotVerified` to a terminal status, and a terminal status never changes again.
pub proof fn lemma_registry_steps_compose(a: Seq<Status>, b: Seq<Status>, c: Seq<Status>)
    requires
        registry_step(a, b),
        registry_step(b, c),
    ensures
        registry_step(a, c),
        forall|i: int| 0 <= i < a.len() && !(a[i] is NotVerified) ==> #[trigger] c[i] == a[i],
{
    assert forall|i: int| 0 <= i < a.len() implies #[trigger] c[i] == a[i] || (a[i] is NotVerified
        && !(c[i] is NotVerified)) by {
        assert(b[i] == a[i] || (a[i] is NotVerified && !(b[i] is NotVerified)));
        assert(c[i] == b[i] || (b[i] is NotVerified && !(c[i] is NotVerified)));
    }
}

impl StatusRegistry {
    /// `n_periods` entries, none verified yet.
    pub fn new_vec(n_periods: u32) -> (r: Vec<Status>)
        ensures
            r@.len() == n_periods,
            forall|i: int| 0 <= i < n_periods ==> #[trigger] r@[i] == Status::NotVerified,
    {
        let mut v: Vec<Status> = Vec::new();
        let mut i: u32 = 0;
        while i < n_periods
            invariant
                i <= n_periods,
                v@.len() == i,
                forall|j: int| 0 <= j < i ==> #[trigger] v@[j] == Status::NotVerified,
            decreases n_periods - i,
        {
            v.push(Status::NotVerified);
            i = i + 1;
        }
        v
    }

    /// A registry of `n_periods` entries, none verified yet.
    pub fn new(n_periods: u32) -> (r: StatusRegistry)
        ensures
            r.status_registry@.len() == n_periods,
            forall|i: int|
                0 <= i < n_periods ==> #[trigger] r.status_registry@[i] == Status::NotVerified,
    {
        StatusRegistry { status_registry: Self::new_vec(n_periods) }
    }
}

} // verus!
