//! A bilateral risk-transfer escrow. Providers stake that a service level objective holds
//! over a run of periods, users that it breaks; after each period a measurement decides
//! and a deviation-weighted amount moves between the two pools.
//!
//! The engine is made of a period clock (`period`), a deviation rule (`deviation`), a
//! per-staker vesting ledger (`lockup`), the pool and claim-token accounting (`pool`) and
//! the per-period validation (`validation`). Every operation either applies in full or
//! leaves its state untouched, and hands back the token movements for the host to carry
//! out.

pub mod address;
pub mod decimal;
pub mod deviation;
pub mod errors;
pub mod instructions;
pub mod lockup;
pub mod period;
pub mod period_registry;
pub mod pool;
pub mod sla;
pub mod sla_registry;
pub mod slo_registry;
pub mod status_registry;
pub mod validation;
