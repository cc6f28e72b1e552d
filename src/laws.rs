//! Facts that relate several operations, proved over their spec models.
use vstd::prelude::*;
use crate::engine::{
    burn_allowed, burn_next, burn_result, initial_state, lock_next, lock_result,
    max_lockable, BURN_CEILING,
};
use crate::state::{
    BurnTokens, ErrorCode, GlobalState, LockTokens, TokensBurned, TokensLocked, UserAccount,
};

verus! {

/// A lock of more than 30% of the holder's balance is refused with `InvalidLockAmount`,
/// and neither the holder's record nor any balance changes.
pub proof fn lemma_over_limit_lock_refused(ctx: LockTokens, amount: u64)
    requires
        amount > max_lockable(ctx.user_token_amount),
    ensures
        lock_result(ctx, amount) == Err::<TokensLocked, ErrorCode>(ErrorCode::InvalidLockAmount),
        lock_next(ctx, amount) == ctx,
{
}

/// After a successful lock, a second lock by the same holder within the limit is refused
/// with `AlreadyLockedInCurrentSlab` as long as `current_cap` has not risen above the
/// cap of the first lock, whatever else changed in between.
pub proof fn lemma_second_lock_in_slab_refused(
    first: LockTokens,
    amount: u64,
    second: LockTokens,
    second_amount: u64,
)
    requires
        lock_result(first, amount) is Ok,
        second.user_account == lock_next(first, amount).user_account,
        second.global_state.current_cap <= first.global_state.current_cap,
        second_amount <= max_lockable(second.user_token_amount),
    ensures
        lock_result(second, second_amount) == Err::<TokensLocked, ErrorCode>(
            ErrorCode::AlreadyLockedInCurrentSlab,
        ),
        lock_next(second, second_amount) == second,
{
}

/// Repeating a successful lock with the same amount, before `current_cap` rises, is
/// refused whatever the holder's balance has become, so it asks for no second transfer.
pub proof fn lemma_repeated_lock_refused(
    first: LockTokens,
    amount: u64,
    user_token_amount: u64,
)
    requires
        lock_result(first, amount) is Ok,
    ensures
        ({
            let second = LockTokens { user_token_amount, ..lock_next(first, amount) };
            lock_result(second, amount) is Err && lock_next(second, amount) == second
        }),
{
}

/// After `initialize`, whatever cap the administrator sets next, a burn is refused with
/// `BurnCycleNotReached` exactly when that cap is below the initial cap plus one quantum.
pub proof fn lemma_burn_gated_after_initialize(
    initial_market_cap: u64,
    quantum: u64,
    new_cap: u64,
    vault_token_amount: u64,
)
    requires
        initial_market_cap + quantum <= u64::MAX,
    ensures
        ({
            let g = GlobalState { current_cap: new_cap, ..initial_state(initial_market_cap, quantum) };
            let ctx = BurnTokens { vault_token_amount, global_state: g };
            &&& g.next_burn_cap == initial_market_cap + quantum
            &&& (burn_result(ctx) == Err::<TokensBurned, ErrorCode>(
                ErrorCode::BurnCycleNotReached,
            ) <==> new_cap < initial_market_cap + quantum)
        }),
{
}

/// A successful burn destroys the vault's whole balance when it is below the ceiling,
/// and the ceiling otherwise; in both cases the threshold rises by exactly one quantum
/// and nothing else in the global record changes.
pub proof fn lemma_burn_clamped_and_advanced(ctx: BurnTokens)
    requires
        burn_allowed(ctx.global_state),
        ctx.global_state.next_burn_cap + ctx.global_state.quantum <= u64::MAX,
    ensures
        burn_result(ctx) is Ok,
        ctx.vault_token_amount <= BURN_CEILING ==> burn_result(ctx)->Ok_0.amount
            == ctx.vault_token_amount,
        ctx.vault_token_amount >= BURN_CEILING ==> burn_result(ctx)->Ok_0.amount
            == BURN_CEILING,
        burn_next(ctx).global_state.next_burn_cap == ctx.global_state.next_burn_cap
            + ctx.global_state.quantum,
        burn_next(ctx).global_state.current_cap == ctx.global_state.current_cap,
        burn_next(ctx).global_state.quantum == ctx.global_state.quantum,
{
}

/// A holder's first lock succeeds, within the limit, as soon as `current_cap` is above zero.
pub proof fn lemma_first_lock_allowed(ctx: LockTokens, amount: u64)
    requires
        ctx.user_account == UserAccount::fresh(),
        ctx.global_state.current_cap > 0,
        amount <= max_lockable(ctx.user_token_amount),
    ensures
        lock_result(ctx, amount) is Ok,
        lock_next(ctx, amount).user_account.last_lock_cap == ctx.global_state.current_cap,
        lock_next(ctx, amount).user_account.locked_amount == amount,
{
}

} // verus!
