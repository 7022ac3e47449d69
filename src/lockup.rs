use vstd::prelude::*;

use crate::errors::ErrorCode;
use crate::period::SlaStatus;

verus! {

/// The content of a lockup: vested tokens, the two vesting buckets and the period the
/// newest bucket belongs to.
pub struct LockupState {
    pub available: nat,
    pub previous: nat,
    pub current: nat,
    pub from_period: nat,
}

/// Whether every amount of the state fits the `u64` the ledger stores it in.
pub open spec fn fits(s: LockupState) -> bool {
    &&& s.available <= u64::MAX
    &&& s.previous <= u64::MAX
    &&& s.current <= u64::MAX
    &&& s.from_period <= u64::MAX
}

/// The lockup after time has moved on to `status`: each bucket that has sat a full period
/// vests. At the end everything vests and the period resets.
pub open spec fn advanced(s: LockupState, status: SlaStatus) -> LockupState {
    match status {
        SlaStatus::NotStarted => s,
        SlaStatus::Active { period_id } => {
            let p = period_id as nat;
            if p == s.from_period + 1 {
                LockupState {
                    available: s.available + s.previous,
                    previous: s.current,
                    current: 0,
                    from_period: p,
                }
            } else if p > s.from_period + 1 {
                LockupState {
                    available: s.available + s.previous + s.current,
                    previous: 0,
                    current: 0,
                    from_period: p,
                }
            } else {
                s
            }
        },
        SlaStatus::Ended => LockupState {
            available: s.available + s.previous + s.current,
            previous: 0,
            current: 0,
            from_period: 0,
        },
    }
}

/// The lockup after `amount` claim tokens were staked in phase `status` (not the end).
pub open spec fn staked(s: LockupState, amount: nat, status: SlaStatus) -> LockupState {
    match status {
        SlaStatus::NotStarted => LockupState {
            previous: s.previous + amount,
            from_period: 0,
            ..s
        },
        SlaStatus::Active { period_id } => {
            let p = period_id as nat;
            if p == s.from_period {
                LockupState { current: s.current + amount, ..s }
            } else if p == s.from_period + 1 {
                LockupState {
                    available: s.available + s.previous,
                    previous: s.current,
                    current: amount,
                    from_period: p,
                }
            } else if p > s.from_period + 1 {
                LockupState {
                    available: s.available + s.previous + s.current,
                    previous: 0,
                    current: amount,
                    from_period: p,
                }
            } else {
                s
            }
        },
        SlaStatus::Ended => s,
    }
}

/// Vested tokens never shrink when time moves on or when stake comes in.
pub proof fn lemma_available_never_decreases(s: LockupState, status: SlaStatus, amount: nat)
    ensures
        advanced(s, status).available >= s.available,
        staked(s, amount, status).available >= s.available,
{
}

/// The claim tokens of one staker on one side, split by how long they have been staked.
/// A stake has to sit one full period before it can be withdrawn.
#[derive(Debug, Clone, Copy)]
pub struct Lockup {
    pub available_tokens: u64,
    locked_tokens_prev: u64,
    locked_tokens: u64,
    locked_from_period_id: u64,
}

impl View for Lockup {
    type V = LockupState;

    closed spec fn view(&self) -> LockupState {
        LockupState {
            available: self.available_tokens as nat,
            previous: self.locked_tokens_prev as nat,
            current: self.locked_tokens as nat,
            from_period: self.locked_from_period_id as nat,
        }
    }
}

impl Default for Lockup {
    fn default() -> (r: Self)
        ensures
            r@ == (LockupState { available: 0, previous: 0, current: 0, from_period: 0 }),
    {
        Self::new()
    }
}

impl Lockup {
    /// An empty lockup.
    pub fn new() -> (r: Self)
        ensures
            r@ == (LockupState { available: 0, previous: 0, current: 0, from_period: 0 }),
    {
        Self { available_tokens: 0, locked_tokens_prev: 0, locked_tokens: 0, locked_from_period_id: 0 }
    }

    pub fn available_tokens(&self) -> (r: u64)
        ensures
            r == self@.available,
    {
        self.available_tokens
    }

    pub fn locked_tokens_prev(&self) -> (r: u64)
        ensures
            r == self@.previous,
    {
        self.locked_tokens_prev
    }

    pub fn locked_tokens(&self) -> (r: u64)
        ensures
            r == self@.current,
    {
        self.locked_tokens
    }

    pub fn locked_from_period_id(&self) -> (r: u64)
        ensures
            r == self@.from_period,
    {
        self.locked_from_period_id
    }

    /// Vests whatever has sat long enough by phase `status`; must run before a withdrawal.
    /// Fails, changing nothing, when a vested amount would not fit in `u64`.
    pub fn update_available_tokens(&mut self, status: SlaStatus) -> (r: Result<(), ErrorCode>)
        ensures
            fits(advanced(old(self)@, status)) ==> r == Ok::<(), ErrorCode>(()) && final(self)@
                == advanced(old(self)@, status),
            !fits(advanced(old(self)@, status)) ==> r == Err::<(), ErrorCode>(
                ErrorCode::CheckedOperationOverflow,
            ) && final(self)@ == old(self)@,
    {
        match status {
            SlaStatus::NotStarted => Ok(()),
            SlaStatus::Active { period_id } => {
                let p = period_id as u64;
                let from = self.locked_from_period_id;
                if p > from && p - from == 1 {
                    let available = match self.available_tokens.checked_add(self.locked_tokens_prev) {
                        Some(v) => v,
                        None => {
                            return Err(ErrorCode::CheckedOperationOverflow);
                        },
                    };
                    self.available_tokens = available;
                    self.locked_tokens_prev = self.locked_tokens;
                    self.locked_tokens = 0;
                    self.locked_from_period_id = p;
                    Ok(())
                } else if p > from {
                    self.release_all(p)
                } else {
                    Ok(())
                }
            },
            SlaStatus::Ended => self.release_all(0),
        }
    }

    /// Moves both buckets into the vested amount and sets the period to `period_id`.
    fn release_all(&mut self, period_id: u64) -> (r: Result<(), ErrorCode>)
        ensures
            ({
                let s = old(self)@;
                let t = LockupState {
                    available: s.available + s.previous + s.current,
                    previous: 0,
                    current: 0,
                    from_period: period_id as nat,
                };
                &&& fits(t) ==> r == Ok::<(), ErrorCode>(()) && final(self)@ == t
                &&& !fits(t) ==> r == Err::<(), ErrorCode>(ErrorCode::CheckedOperationOverflow)
                    && final(self)@ == s
            }),
    {
        let locked = match self.locked_tokens_prev.checked_add(self.locked_tokens) {
            Some(v) => v,
            None => {
                return Err(ErrorCode::CheckedOperationOverflow);
            },
        };
        let available = match self.available_tokens.checked_add(locked) {
            Some(v) => v,
            None => {
                return Err(ErrorCode::CheckedOperationOverflow);
            },
        };
        self.available_tokens = available;
        self.locked_tokens_prev = 0;
        self.locked_tokens = 0;
        self.locked_from_period_id = period_id;
        Ok(())
    }

    /// Records `stake_size` newly minted claim tokens in phase `status`, vesting first what
    /// has sat long enough. Refused after the end; fails, changing nothing, when an amount
    /// would not fit in `u64`.
    pub fn stake_update(&mut self, stake_size: u64, status: SlaStatus) -> (r: Result<
        (),
        ErrorCode,
    >)
        ensures
            status is Ended ==> r == Err::<(), ErrorCode>(ErrorCode::CannotStakeAfterSlaEnded)
                && final(self)@ == old(self)@,
            !(status is Ended) && fits(staked(old(self)@, stake_size as nat, status)) ==> r
                == Ok::<(), ErrorCode>(()) && final(self)@ == staked(
                old(self)@,
                stake_size as nat,
                status,
            ),
            !(status is Ended) && !fits(staked(old(self)@, stake_size as nat, status)) ==> r
                == Err::<(), ErrorCode>(ErrorCode::CheckedOperationOverflow) && final(self)@
                == old(self)@,
    {
        match status {
            SlaStatus::NotStarted => {
                let prev = match self.locked_tokens_prev.checked_add(stake_size) {
                    Some(v) => v,
                    None => {
                        return Err(ErrorCode::CheckedOperationOverflow);
                    },
                };
                self.locked_tokens_prev = prev;
                self.locked_from_period_id = 0;
                Ok(())
            },
            SlaStatus::Active { period_id } => {
                let p = period_id as u64;
                let from = self.locked_from_period_id;
                if p == from {
                    let current = match self.locked_tokens.checked_add(stake_size) {
                        Some(v) => v,
                        None => {
                            return Err(ErrorCode::CheckedOperationOverflow);
                        },
                    };
                    self.locked_tokens = current;
                    Ok(())
                } else if p > from && p - from == 1 {
                    let available = match self.available_tokens.checked_add(self.locked_tokens_prev) {
                        Some(v) => v,
                        None => {
                            return Err(ErrorCode::CheckedOperationOverflow);
                        },
                    };
                    self.available_tokens = available;
                    self.locked_tokens_prev = self.locked_tokens;
                    self.locked_tokens = stake_size;
                    self.locked_from_period_id = p;
                    Ok(())
                } else if p > from {
                    let r = self.release_all(p);
                    if r.is_ok() {
                        self.locked_tokens = stake_size;
                    }
                    r
                } else {
                    Ok(())
                }
            },
            SlaStatus::Ended => Err(ErrorCode::CannotStakeAfterSlaEnded),
        }
    }

    /// Takes `withdraw_size` vested tokens out. Refused for zero and for more than is vested.
    pub fn withdraw(&mut self, withdraw_size: u64) -> (r: Result<(), ErrorCode>)
        ensures
            withdraw_size == 0 ==> r == Err::<(), ErrorCode>(ErrorCode::WithdrawalIsZero)
                && final(self)@ == old(self)@,
            withdraw_size > 0 && withdraw_size > old(self)@.available ==> r == Err::<
                (),
                ErrorCode,
            >(ErrorCode::NoAvailableTokensForWithdrawal) && final(self)@ == old(self)@,
            withdraw_size > 0 && withdraw_size <= old(self)@.available ==> r == Ok::<
                (),
                ErrorCode,
            >(()) && final(self)@ == (LockupState {
                available: (old(self)@.available - withdraw_size) as nat,
                ..old(self)@
            }),
    {
        if withdraw_size < 1 {
            return Err(ErrorCode::WithdrawalIsZero);
        }
        if self.available_tokens < withdraw_size {
            return Err(ErrorCode::NoAvailableTokensForWithdrawal);
        }
        self.available_tokens = self.available_tokens - withdraw_size;
        Ok(())
    }
}

} // verus!
