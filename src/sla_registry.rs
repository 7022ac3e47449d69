use vstd::prelude::*;

use crate::address::same_address;
use crate::decimal::{aligned, DslaDecimal};
use crate::errors::ErrorCode;
use crate::period::{PeriodGenerator, PeriodLength};
use crate::sla::{Governance, Sla, Slo};
use crate::status_registry::{Status, StatusRegistry};

verus! {

/// The most agreements the registry holds.
pub const SLA_REGISTRY_CAPACITY: usize = 312499;

/// The most decimals the token of an agreement may have.
pub const MAX_MINT_DECIMALS: u8 = 9;

/// the `SlaRegistry` holds the addresses of all deployed agreements, each once
#[derive(Debug)]
pub struct SlaRegistry {
    pub sla_account_addresses: Vec<[u8; 32]>,
}

/// Whether `address` is among `addresses`.
pub open spec fn registered(addresses: Seq<[u8; 32]>, address: Seq<u8>) -> bool {
    exists|i: int| 0 <= i < addresses.len() && #[trigger] addresses[i]@ == address
}

impl SlaRegistry {
    /// An empty registry.
    pub fn new() -> (r: SlaRegistry)
        ensures
            r.sla_account_addresses@.len() == 0,
    {
        SlaRegistry { sla_account_addresses: Vec::new() }
    }

    /// Whether the agreement at `address` is registered.
    pub fn contains(&self, address: &[u8; 32]) -> (r: bool)
        ensures
            r == registered(self.sla_account_addresses@, address@),
    {
        let addresses = &self.sla_account_addresses;
        let mut i: usize = 0;
        while i < addresses.len()
            invariant
                i <= addresses@.len(),
                addresses@ == self.sla_account_addresses@,
                forall|j: int| 0 <= j < i ==> #[trigger] addresses@[j]@ != address@,
            decreases addresses@.len() - i,
        {
            if same_address(&addresses[i], address) {
                return true;
            }
            i = i + 1;
        }
        false
    }

    pub fn len(&self) -> (r: usize)
        ensures
            r == self.sla_account_addresses@.len(),
    {
        self.sla_account_addresses.len()
    }
}

/// What a deployment hands back: the new agreement, its empty status registry and the
/// deposit the deployer owes for all periods.
#[derive(Debug)]
pub struct Deployment {
    pub sla: Sla,
    pub status_registry: StatusRegistry,
    pub deposit: u64,
}

/// The first check a deployment fails, if any: room in the registry, the token's
/// decimals, a fresh address, a usable schedule, a leverage between zero and the
/// governance maximum, and a deposit that fits in `u64`.
pub open spec fn deploy_error(
    addresses: Seq<[u8; 32]>,
    governance: Governance,
    sla_address: [u8; 32],
    mint_decimals: u8,
    leverage: DslaDecimal,
    period_data: PeriodGenerator,
) -> Option<ErrorCode> {
    if addresses.len() >= SLA_REGISTRY_CAPACITY {
        Some(ErrorCode::SlaRegistryFull)
    } else if mint_decimals > MAX_MINT_DECIMALS {
        Some(ErrorCode::InvalidMintDecimals)
    } else if registered(addresses, sla_address@) {
        Some(ErrorCode::SLaAlreadyInitialized)
    } else if !period_data.wf() {
        Some(ErrorCode::InvalidSchedule)
    } else if leverage@.mantissa < 0 || aligned(leverage@, governance.max_leverage@).0 > aligned(
        leverage@,
        governance.max_leverage@,
    ).1 {
        Some(ErrorCode::InvalidLeverage)
    } else if governance.dsla_deposit_by_period * period_data.n_periods > u64::MAX {
        Some(ErrorCode::CheckedOperationOverflow)
    } else {
        None
    }
}

/// Deploys an agreement at `sla_address`: registers it, sets it up with empty pools and
/// an unverified status for every period, and works out the deposit for all periods.
/// Nothing changes when a check fails.
pub fn deploy_sla(
    registry: &mut SlaRegistry,
    governance: &Governance,
    sla_address: [u8; 32],
    deployer_address: [u8; 32],
    aggregator_address: [u8; 32],
    mint_address: [u8; 32],
    mint_decimals: u8,
    slo: Slo,
    leverage: DslaDecimal,
    start: u128,
    n_periods: u32,
    period_length: PeriodLength,
) -> (r: Result<Deployment, ErrorCode>)
    ensures
        ({
            let period_data = PeriodGenerator { start, period_length, n_periods };
            let err = deploy_error(
                old(registry).sla_account_addresses@,
                *governance,
                sla_address,
                mint_decimals,
                leverage,
                period_data,
            );
            &&& err matches Some(e) ==> r == Err::<Deployment, ErrorCode>(e)
                && final(registry).sla_account_addresses@ == old(registry).sla_account_addresses@
            &&& err is None ==> (r matches Ok(d) && d.sla == Sla::new_spec(
                deployer_address,
                aggregator_address,
                mint_address,
                slo,
                leverage,
                period_data,
            ) && d.sla.wf() && d.deposit == governance.dsla_deposit_by_period * n_periods
                && d.status_registry.status_registry@.len() == n_periods && (forall|i: int|
                0 <= i < n_periods ==> #[trigger] d.status_registry.status_registry@[i]
                == Status::NotVerified) && final(registry).sla_account_addresses@ == old(
                registry,
            ).sla_account_addresses@.push(sla_address))
        }),
{
    if registry.len() >= SLA_REGISTRY_CAPACITY {
        return Err(ErrorCode::SlaRegistryFull);
    }
    if mint_decimals > MAX_MINT_DECIMALS {
        return Err(ErrorCode::InvalidMintDecimals);
    }
    if registry.contains(&sla_address) {
        return Err(ErrorCode::SLaAlreadyInitialized);
    }
    let period_data = PeriodGenerator::new(start, period_length, n_periods);
    if !period_data.is_well_formed() {
        return Err(ErrorCode::InvalidSchedule);
    }
    let (lev, max_lev) = leverage.align(&governance.max_leverage);
    if leverage.mantissa() < 0 || lev > max_lev {
        return Err(ErrorCode::InvalidLeverage);
    }
    let deposit = match governance.dsla_deposit_by_period.checked_mul(n_periods as u64) {
        Some(d) => d,
        None => {
            return Err(ErrorCode::CheckedOperationOverflow);
        },
    };
    registry.sla_account_addresses.push(sla_address);
    let sla = Sla::new(
        deployer_address,
        aggregator_address,
        mint_address,
        slo,
        leverage,
        period_data,
    );
    Ok(Deployment { sla, status_registry: StatusRegistry::new(n_periods), deposit })
}

} // verus!
