use vstd::prelude::*;
use crate::state::{
    BurnTokens, ErrorCode, GlobalState, Initialize, LockTokens, TokensBurned, TokensLocked,
    UpdateCap, UserAccount,
};

verus! {

/// Share of the balance, in percent, that a single lock may take.
pub const LOCK_PERCENT: u64 = 30;

/// The largest amount one burn cycle destroys: 450 whole tokens of 9 decimals.
pub const BURN_CEILING: u64 = 450_000_000_000;

/// The largest amount a holder with `balance` may lock at once: 30% of it, rounded down.
pub open spec fn max_lockable(balance: u64) -> int {
    (balance * LOCK_PERCENT) as int / 100
}

/// Amount destroyed by one burn cycle: the ceiling, or the vault's balance if less.
pub open spec fn burn_amount_of(vault_balance: u64) -> u64 {
    if vault_balance < BURN_CEILING { vault_balance } else { BURN_CEILING }
}

/// The global record that `initialize` creates.
pub open spec fn initial_state(initial_market_cap: u64, quantum: u64) -> GlobalState {
    GlobalState {
        current_cap: initial_market_cap,
        next_burn_cap: (initial_market_cap + quantum) as u64,
        quantum,
    }
}

/// Whether `lock_tokens(ctx, amount)` is carried out.
pub open spec fn lock_allowed(ctx: LockTokens, amount: u64) -> bool {
    amount <= max_lockable(ctx.user_token_amount)
        && ctx.user_account.last_lock_cap < ctx.global_state.current_cap
}

/// Outcome of `lock_tokens(ctx, amount)`: the error of the first failed check, or the event.
pub open spec fn lock_result(ctx: LockTokens, amount: u64) -> Result<TokensLocked, ErrorCode> {
    if amount > max_lockable(ctx.user_token_amount) {
        Err(ErrorCode::InvalidLockAmount)
    } else if ctx.user_account.last_lock_cap >= ctx.global_state.current_cap {
        Err(ErrorCode::AlreadyLockedInCurrentSlab)
    } else {
        Ok(TokensLocked { user: ctx.user, amount, lock_cap: ctx.global_state.current_cap })
    }
}

/// Records after `lock_tokens(ctx, amount)`: on success the holder's record takes the
/// amount and the current cap; on failure nothing changes.
pub open spec fn lock_next(ctx: LockTokens, amount: u64) -> LockTokens {
    if lock_allowed(ctx, amount) {
        LockTokens {
            user_account: UserAccount {
                locked_amount: amount,
                last_lock_cap: ctx.global_state.current_cap,
                ..ctx.user_account
            },
            ..ctx
        }
    } else {
        ctx
    }
}

/// Whether `burn_tokens(ctx)` is carried out.
pub open spec fn burn_allowed(g: GlobalState) -> bool {
    g.current_cap >= g.next_burn_cap
}

/// Outcome of `burn_tokens(ctx)`.
pub open spec fn burn_result(ctx: BurnTokens) -> Result<TokensBurned, ErrorCode> {
    if burn_allowed(ctx.global_state) {
        Ok(TokensBurned {
            amount: burn_amount_of(ctx.vault_token_amount),
            burn_cap: ctx.global_state.current_cap,
        })
    } else {
        Err(ErrorCode::BurnCycleNotReached)
    }
}

/// Records after `burn_tokens(ctx)`: on success the threshold moves up by one quantum.
pub open spec fn burn_next(ctx: BurnTokens) -> BurnTokens {
    if burn_allowed(ctx.global_state) {
        BurnTokens {
            global_state: GlobalState {
                next_burn_cap: (ctx.global_state.next_burn_cap + ctx.global_state.quantum) as u64,
                ..ctx.global_state
            },
            ..ctx
        }
    } else {
        ctx
    }
}

/// Whether a burn on `g` can advance its threshold without overflow.
pub open spec fn burn_fits(g: GlobalState) -> bool {
    burn_allowed(g) ==> g.next_burn_cap + g.quantum <= u64::MAX
}

/// Creates the global record: the cap as given, the first burn threshold one quantum above it.
pub fn initialize(ctx: &mut Initialize, initial_market_cap: u64, quantum: u64) -> (r: Result<(), ErrorCode>)
    requires
        initial_market_cap + quantum <= u64::MAX,
    ensures
        r is Ok,
        final(ctx).global_state == initial_state(initial_market_cap, quantum),
{
    ctx.global_state.current_cap = initial_market_cap;
    ctx.global_state.next_burn_cap = initial_market_cap + quantum;
    ctx.global_state.quantum = quantum;
    Ok(())
}

/// Locks `amount` of the holder's balance: at most 30% of it, and at most once while
/// `current_cap` has not moved above the cap of the holder's last lock.
pub fn lock_tokens(ctx: &mut LockTokens, amount: u64) -> (r: Result<TokensLocked, ErrorCode>)
    requires
        old(ctx).user_token_amount * LOCK_PERCENT <= u64::MAX,
    ensures
        r == lock_result(*old(ctx), amount),
        *final(ctx) == lock_next(*old(ctx), amount),
        r is Ok <==> lock_allowed(*old(ctx), amount),
{
    let max_lockable_amount = ctx.user_token_amount * LOCK_PERCENT / 100;
    if amount > max_lockable_amount {
        return Err(ErrorCode::InvalidLockAmount);
    }
    if ctx.user_account.last_lock_cap >= ctx.global_state.current_cap {
        return Err(ErrorCode::AlreadyLockedInCurrentSlab);
    }
    ctx.user_account.locked_amount = amount;
    ctx.user_account.last_lock_cap = ctx.global_state.current_cap;
    Ok(TokensLocked { user: ctx.user, amount, lock_cap: ctx.global_state.current_cap })
}

/// The amount one burn cycle destroys from a vault holding `vault_balance`.
pub fn burn_amount(vault_balance: u64) -> (r: u64)
    ensures
        r == burn_amount_of(vault_balance),
        r <= vault_balance,
        r <= BURN_CEILING,
{
    if vault_balance < BURN_CEILING { vault_balance } else { BURN_CEILING }
}

/// Runs one burn cycle once `current_cap` has reached the threshold, and moves the
/// threshold up by one quantum whatever amount the vault could give.
pub fn burn_tokens(ctx: &mut BurnTokens) -> (r: Result<TokensBurned, ErrorCode>)
    requires
        burn_fits(old(ctx).global_state),
    ensures
        r == burn_result(*old(ctx)),
        *final(ctx) == burn_next(*old(ctx)),
        r is Ok <==> burn_allowed(old(ctx).global_state),
{
    if ctx.global_state.current_cap < ctx.global_state.next_burn_cap {
        return Err(ErrorCode::BurnCycleNotReached);
    }
    let amount = burn_amount(ctx.vault_token_amount);
    ctx.global_state.next_burn_cap = ctx.global_state.next_burn_cap + ctx.global_state.quantum;
    Ok(TokensBurned { amount, burn_cap: ctx.global_state.current_cap })
}

/// Sets `current_cap` to `new_cap`, with no bound against any other value.
pub fn update_cap(ctx: &mut UpdateCap, new_cap: u64) -> (r: Result<(), ErrorCode>)
    ensures
        r is Ok,
        final(ctx).global_state == (GlobalState { current_cap: new_cap, ..old(ctx).global_state }),
{
    ctx.global_state.current_cap = new_cap;
    Ok(())
}

} // verus!
