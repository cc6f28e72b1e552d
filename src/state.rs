use vstd::prelude::*;

verus! {

/// The singleton record shared by every operation.
#[derive(Clone, Copy, Debug, PartialEq, Eq, Structural)]
pub struct GlobalState {
    /// Market-cap value set by the administrator.
    pub current_cap: u64,
    /// Threshold that `current_cap` must reach before a burn is allowed.
    pub next_burn_cap: u64,
    /// Step added to `next_burn_cap` after each burn.
    pub quantum: u64,
}

/// One holder's record, created on the holder's first lock.
#[derive(Clone, Copy, Debug, PartialEq, Eq, Structural)]
pub struct UserAccount {
    /// Amount locked by the most recent lock; each lock overwrites it.
    pub locked_amount: u64,
    /// Reserved; no operation reads or writes it.
    pub unlock_time: i64,
    /// `current_cap` at the holder's most recent lock.
    pub last_lock_cap: u64,
}

impl UserAccount {
    /// The record as it stands when first created: every field zero.
    pub open spec fn fresh() -> UserAccount {
        UserAccount { locked_amount: 0, unlock_time: 0, last_lock_cap: 0 }
    }

    pub fn new() -> (r: UserAccount)
        ensures
            r == UserAccount::fresh(),
    {
        UserAccount { locked_amount: 0, unlock_time: 0, last_lock_cap: 0 }
    }
}

/// The ways an operation can be refused.
#[derive(Clone, Copy, Debug, PartialEq, Eq, Structural)]
pub enum ErrorCode {
    /// Tokens are still locked (declared for compatibility; never raised).
    TokensLocked,
    /// The amount exceeds 30% of the holder's balance.
    InvalidLockAmount,
    /// The holder already locked while `current_cap` had its present value or a higher one.
    AlreadyLockedInCurrentSlab,
    /// `current_cap` has not reached `next_burn_cap`.
    BurnCycleNotReached,
}

/// Records that `initialize` works on.
#[derive(Clone, Copy, Debug, PartialEq, Eq, Structural)]
pub struct Initialize {
    pub global_state: GlobalState,
}

/// Records and balances that `lock_tokens` works on.
#[derive(Clone, Copy, Debug, PartialEq, Eq)]
pub struct LockTokens {
    /// The holder's public key.
    pub user: [u8; 32],
    pub user_account: UserAccount,
    /// The holder's spendable token balance.
    pub user_token_amount: u64,
    pub global_state: GlobalState,
}

/// Records and balances that `burn_tokens` works on.
#[derive(Clone, Copy, Debug, PartialEq, Eq, Structural)]
pub struct BurnTokens {
    /// The vault's token balance.
    pub vault_token_amount: u64,
    pub global_state: GlobalState,
}

/// Records that `update_cap` works on.
#[derive(Clone, Copy, Debug, PartialEq, Eq, Structural)]
pub struct UpdateCap {
    pub global_state: GlobalState,
}

/// Emitted by a successful lock: `amount` is to move from the holder to the vault.
#[derive(Clone, Copy, Debug, PartialEq, Eq)]
pub struct TokensLocked {
    pub user: [u8; 32],
    pub amount: u64,
    pub lock_cap: u64,
}

/// Emitted by a successful burn: `amount` is to be destroyed from the vault.
#[derive(Clone, Copy, Debug, PartialEq, Eq, Structural)]
pub struct TokensBurned {
    pub amount: u64,
    pub burn_cap: u64,
}

} // verus!
