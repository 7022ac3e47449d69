use vstd::prelude::*;

use crate::deviation::{comparator_holds, deviation, deviation_outcome, precision_ok, SloType};
use crate::address::same_address;
use crate::errors::ErrorCode;

verus! {

/// An objective on a whole-number measurement.
#[derive(Debug, Clone, Copy, PartialEq, Eq, Structural)]
pub struct Slo {
    pub slo_value: u128,
    pub slo_type: SloType,
}

impl Slo {
    pub fn new(slo_value: u128, slo_type: SloType) -> (r: Self)
        ensures
            r == (Slo { slo_value, slo_type }),
    {
        Self { slo_value, slo_type }
    }

    /// Whether the measurement `value` meets the objective.
    pub fn is_respected(&self, value: u128) -> (r: Result<bool, ErrorCode>)
        ensures
            r == Ok::<bool, ErrorCode>(
                comparator_holds(self.slo_type, value as int, self.slo_value as int),
            ),
    {
        let sli = value;
        let slo = self.slo_value;
        match self.slo_type {
            SloType::EqualTo => Ok(sli == slo),
            SloType::NotEqualTo => Ok(sli != slo),
            SloType::SmallerThan => Ok(sli < slo),
            SloType::SmallerOrEqualTo => Ok(sli <= slo),
            SloType::GreaterThan => Ok(sli > slo),
            SloType::GreaterOrEqualTo => Ok(sli >= slo),
        }
    }

    /// The deviation of the measurement `sli` from the objective, in units of `precision`.
    pub fn get_deviation(&self, sli: u128, precision: u128) -> (r: Result<u128, ErrorCode>)
        ensures
            r == deviation_outcome(self.slo_type, self.slo_value as int, sli as int, precision as int),
    {
        deviation(self.slo_type, self.slo_value, sli, precision)
    }
}

/// The objective registered last for `key`, if any.
pub open spec fn lookup(entries: Seq<([u8; 32], Slo)>, key: Seq<u8>) -> Option<Slo>
    decreases entries.len(),
{
    if entries.len() == 0 {
        None
    } else if entries.last().0@ == key {
        Some(entries.last().1)
    } else {
        lookup(entries.drop_last(), key)
    }
}

/// Objectives registered by agreement address; a new registration for an address
/// replaces the one before.
#[derive(Debug)]
pub struct SLORegistry {
    registered_slo: Vec<([u8; 32], Slo)>,
    sla_registry: [u8; 32],
}

impl SLORegistry {
    /// The objective registered for the agreement at `sla_address`.
    pub closed spec fn slo_of(self, sla_address: Seq<u8>) -> Option<Slo> {
        lookup(self.registered_slo@, sla_address)
    }

    pub closed spec fn registry_address(self) -> Seq<u8> {
        self.sla_registry@
    }

    /// An empty registry serving the agreement registry at `sla_registry`.
    pub fn new(sla_registry: [u8; 32]) -> (r: Self)
        ensures
            forall|k: Seq<u8>| #[trigger] r.slo_of(k) == None::<Slo>,
            r.registry_address() == sla_registry@,
    {
        let r = SLORegistry { registered_slo: Vec::new(), sla_registry };
        assert forall|k: Seq<u8>| #[trigger] r.slo_of(k) == None::<Slo> by {
            assert(r.registered_slo@.len() == 0);
        }
        r
    }

    pub fn sla_registry(&self) -> (r: [u8; 32])
        ensures
            r@ == self.registry_address(),
    {
        self.sla_registry
    }

    /// Registers `slo` for the agreement at `sla_address`, replacing an earlier one.
    pub fn register_slo(&mut self, sla_address: [u8; 32], slo: Slo) -> (r: Result<(), ErrorCode>)
        ensures
            r == Ok::<(), ErrorCode>(()),
            final(self).slo_of(sla_address@) == Some(slo),
            forall|k: Seq<u8>|
                k != sla_address@ ==> #[trigger] final(self).slo_of(k) == old(self).slo_of(k),
            final(self).registry_address() == old(self).registry_address(),
    {
        self.registered_slo.push((sla_address, slo));
        proof {
            assert(self.registered_slo@.drop_last() =~= old(self).registered_slo@);
        }
        Ok(())
    }

    fn find(&self, sla_address: &[u8; 32]) -> (r: Option<Slo>)
        ensures
            r == self.slo_of(sla_address@),
    {
        let entries = &self.registered_slo;
        let mut i: usize = entries.len();
        assert(entries@.subrange(0, i as int) =~= entries@);
        while i > 0
            invariant
                i <= entries@.len(),
                entries@ == self.registered_slo@,
                lookup(entries@, sla_address@) == lookup(entries@.subrange(0, i as int), sla_address@),
            decreases i,
        {
            let entry = &entries[i - 1];
            if same_address(&entry.0, sla_address) {
                return Some(entry.1);
            }
            proof {
                assert(entries@.subrange(0, i as int).drop_last() =~= entries@.subrange(
                    0,
                    i - 1,
                ));
            }
            i = i - 1;
        }
        None
    }

    /// Whether `value` meets the objective registered for `sla_address`.
    pub fn is_respected(&self, value: u128, sla_address: [u8; 32]) -> (r: Result<bool, ErrorCode>)
        ensures
            self.slo_of(sla_address@) is None ==> r == Err::<bool, ErrorCode>(
                ErrorCode::SloNotFound,
            ),
            self.slo_of(sla_address@) matches Some(slo) ==> r == Ok::<bool, ErrorCode>(
                comparator_holds(slo.slo_type, value as int, slo.slo_value as int),
            ),
    {
        match self.find(&sla_address) {
            None => Err(ErrorCode::SloNotFound),
            Some(slo) => slo.is_respected(value),
        }
    }

    /// The deviation of `sli` from the objective registered for `sla_address`, in units
    /// of `precision`; the precision is checked before the lookup.
    pub fn get_deviation(&self, sli: u128, sla_address: [u8; 32], precision: u128) -> (r: Result<
        u128,
        ErrorCode,
    >)
        ensures
            !precision_ok(precision as int) ==> r == Err::<u128, ErrorCode>(
                ErrorCode::InvalidPrecision,
            ),
            precision_ok(precision as int) && self.slo_of(sla_address@) is None ==> r == Err::<
                u128,
                ErrorCode,
            >(ErrorCode::SloNotFound),
            precision_ok(precision as int) ==> (self.slo_of(sla_address@) matches Some(slo) ==> r
                == deviation_outcome(
                slo.slo_type,
                slo.slo_value as int,
                sli as int,
                precision as int,
            )),
    {
        if precision == 0 || precision % 100 != 0 {
            return Err(ErrorCode::InvalidPrecision);
        }
        match self.find(&sla_address) {
            None => Err(ErrorCode::SloNotFound),
            Some(slo) => slo.get_deviation(sli, precision),
        }
    }
}

/// Points the registry at the agreement registry `sla_registry` and forgets every
/// objective registered so far.
pub fn set_sla_registry(registry: &mut SLORegistry, sla_registry: [u8; 32])
    ensures
        forall|k: Seq<u8>| #[trigger] final(registry).slo_of(k) == None::<Slo>,
        final(registry).registry_address() == sla_registry@,
{
    *registry = SLORegistry::new(sla_registry);
}

} // verus!
