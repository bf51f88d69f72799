use vstd::prelude::*;

use crate::error::{LiquidateError, TokenError};
use crate::token::{spec_transfer, transfer, TokenAccount};

verus! {

/// The parties and token accounts the orchestrator's transfer sub-calls
/// name. Their on-ledger addresses are the caller's concern; the pipeline
/// only cares which role each sub-call touches and under whose authority.
#[derive(Clone, Copy, Debug, PartialEq, Eq, Structural)]
pub enum AccountRole {
    RepayReserveLiquiditySupply,
    WithdrawReserveCollateralSupply,
    UserSourceLiquidity,
    UserDestinationCollateral,
    UserDestinationLiquidity,
    InvokerProfitAccount,
    RaydiumPoolCoinToken,
    RaydiumPoolPcToken,
    LendingMarketAuthority,
    Liquidator,
    RaydiumAmmAuthority,
}

/// One token-transfer sub-call the pipeline issues: which account pays,
/// which receives, who authorizes it, and how much moves.
#[derive(Clone, Copy, Debug, PartialEq, Eq, Structural)]
pub struct SubCall {
    pub from: AccountRole,
    pub to: AccountRole,
    pub authority: AccountRole,
    pub amount: u64,
}

/// The fully-resolved account set of one liquidation attempt: the
/// balances of the eight token accounts whose state the five-step
/// pipeline reads or writes. All other accounts of the call interface
/// (signers, markets, order-book venue) are opaque to the pipeline and
/// stay with the unverified shell.
#[derive(Clone, Copy, Debug, PartialEq, Eq, Structural)]
pub struct Liquidate {
    pub repay_reserve_liquidity_supply: TokenAccount,
    pub withdraw_reserve_collateral_supply: TokenAccount,
    pub user_source_liquidity: TokenAccount,
    pub user_destination_collateral: TokenAccount,
    pub user_destination_liquidity: TokenAccount,
    pub invoker_profit_account: TokenAccount,
    pub raydium_pool_coin_token: TokenAccount,
    pub raydium_pool_pc_token: TokenAccount,
}

/// The borrow leg of the flash loan: reserve liquidity moves to the
/// invoker's source-liquidity account under the lending-market authority.
pub open spec fn borrow_call(amount: u64) -> SubCall {
    SubCall {
        from: AccountRole::RepayReserveLiquiditySupply,
        to: AccountRole::UserSourceLiquidity,
        authority: AccountRole::LendingMarketAuthority,
        amount,
    }
}

/// The collateral seizure: the withdraw reserve's collateral supply moves
/// to the invoker's destination-collateral account under the
/// lending-market authority.
pub open spec fn liquidation_call(amount: u64) -> SubCall {
    SubCall {
        from: AccountRole::WithdrawReserveCollateralSupply,
        to: AccountRole::UserDestinationCollateral,
        authority: AccountRole::LendingMarketAuthority,
        amount,
    }
}

/// The swap's first leg: the whole destination-collateral balance moves
/// into the pool's coin-side account under the liquidator's authority.
pub open spec fn swap_deposit_call(amount: u64) -> SubCall {
    SubCall {
        from: AccountRole::UserDestinationCollateral,
        to: AccountRole::RaydiumPoolCoinToken,
        authority: AccountRole::Liquidator,
        amount,
    }
}

/// The swap's second leg: the whole pc-side pool balance moves into the
/// invoker's destination-liquidity account under the pool's own authority.
pub open spec fn swap_receive_call(amount: u64) -> SubCall {
    SubCall {
        from: AccountRole::RaydiumPoolPcToken,
        to: AccountRole::UserDestinationLiquidity,
        authority: AccountRole::RaydiumAmmAuthority,
        amount,
    }
}

/// The repay leg of the flash loan: the borrowed amount moves back from
/// the source-liquidity account to the reserve, under the liquidator.
pub open spec fn repay_call(amount: u64) -> SubCall {
    SubCall {
        from: AccountRole::UserSourceLiquidity,
        to: AccountRole::RepayReserveLiquiditySupply,
        authority: AccountRole::Liquidator,
        amount,
    }
}

/// The profit distribution: the whole destination-liquidity balance moves
/// to the invoker's profit account, under the liquidator.
pub open spec fn distribute_call(amount: u64) -> SubCall {
    SubCall {
        from: AccountRole::UserDestinationLiquidity,
        to: AccountRole::InvokerProfitAccount,
        authority: AccountRole::Liquidator,
        amount,
    }
}

/// Balance effect of the borrow step.
pub open spec fn spec_borrow(s: Liquidate, amount: u64) -> Result<Liquidate, TokenError> {
    match spec_transfer(
        s.repay_reserve_liquidity_supply.amount,
        s.user_source_liquidity.amount,
        amount,
    ) {
        Ok(moved) => Ok(
            Liquidate {
                repay_reserve_liquidity_supply: TokenAccount { amount: moved.0 },
                user_source_liquidity: TokenAccount { amount: moved.1 },
                ..s
            },
        ),
        Err(e) => Err(e),
    }
}

/// Balance effect of the liquidation step.
pub open spec fn spec_liquidation(s: Liquidate, amount: u64) -> Result<Liquidate, TokenError> {
    match spec_transfer(
        s.withdraw_reserve_collateral_supply.amount,
        s.user_destination_collateral.amount,
        amount,
    ) {
        Ok(moved) => Ok(
            Liquidate {
                withdraw_reserve_collateral_supply: TokenAccount { amount: moved.0 },
                user_destination_collateral: TokenAccount { amount: moved.1 },
                ..s
            },
        ),
        Err(e) => Err(e),
    }
}

/// Balance effect of the swap step: both legs move whatever balance the
/// paying account holds at that moment, read live, never pre-computed.
pub open spec fn spec_swap(s: Liquidate) -> Result<Liquidate, TokenError> {
    let collateral = s.user_destination_collateral.amount;
    match spec_transfer(collateral, s.raydium_pool_coin_token.amount, collateral) {
        Ok(deposited) => {
            let s1 = Liquidate {
                user_destination_collateral: TokenAccount { amount: deposited.0 },
                raydium_pool_coin_token: TokenAccount { amount: deposited.1 },
                ..s
            };
            let proceeds = s1.raydium_pool_pc_token.amount;
            match spec_transfer(proceeds, s1.user_destination_liquidity.amount, proceeds) {
                Ok(received) => Ok(
                    Liquidate {
                        raydium_pool_pc_token: TokenAccount { amount: received.0 },
                        user_destination_liquidity: TokenAccount { amount: received.1 },
                        ..s1
                    },
                ),
                Err(e) => Err(e),
            }
        },
        Err(e) => Err(e),
    }
}

/// Balance effect of the repay step.
pub open spec fn spec_repay(s: Liquidate, amount: u64) -> Result<Liquidate, TokenError> {
    match spec_transfer(
        s.user_source_liquidity.amount,
        s.repay_reserve_liquidity_supply.amount,
        amount,
    ) {
        Ok(moved) => Ok(
            Liquidate {
                user_source_liquidity: TokenAccount { amount: moved.0 },
                repay_reserve_liquidity_supply: TokenAccount { amount: moved.1 },
                ..s
            },
        ),
        Err(e) => Err(e),
    }
}

/// Balance effect of the distribution step: a zero residual balance is a
/// reportable failure, not a silent no-op.
pub open spec fn spec_distribute(s: Liquidate) -> Result<Liquidate, LiquidateError> {
    let profit = s.user_destination_liquidity.amount;
    if profit == 0 {
        Err(LiquidateError::NoProfit)
    } else {
        match spec_transfer(profit, s.invoker_profit_account.amount, profit) {
            Ok(moved) => Ok(
                Liquidate {
                    user_destination_liquidity: TokenAccount { amount: moved.0 },
                    invoker_profit_account: TokenAccount { amount: moved.1 },
                    ..s
                },
            ),
            Err(e) => Err(LiquidateError::SubCall(e)),
        }
    }
}

/// The whole pipeline: the balances after a successful run together with
/// the exact ordered sequence of transfer sub-calls it issues, or the
/// error it fails with. A failed run has no observable effect at all, so
/// it carries no trace.
pub open spec fn spec_liquidate(s: Liquidate, liquidity_amount: u64) -> Result<
    (Liquidate, Seq<SubCall>),
    LiquidateError,
> {
    if liquidity_amount == 0 {
        Err(LiquidateError::InvalidArgument)
    } else {
        match spec_borrow(s, liquidity_amount) {
            Err(e) => Err(LiquidateError::SubCall(e)),
            Ok(s1) => match spec_liquidation(s1, liquidity_amount) {
                Err(e) => Err(LiquidateError::SubCall(e)),
                Ok(s2) => match spec_swap(s2) {
                    Err(e) => Err(LiquidateError::SubCall(e)),
                    Ok(s3) => match spec_repay(s3, liquidity_amount) {
                        Err(e) => Err(LiquidateError::SubCall(e)),
                        Ok(s4) => match spec_distribute(s4) {
                            Err(e) => Err(e),
                            Ok(s5) => Ok(
                                (
                                    s5,
                                    seq![
                                        borrow_call(liquidity_amount),
                                        liquidation_call(liquidity_amount),
                                        swap_deposit_call(s2.user_destination_collateral.amount),
                                        swap_receive_call(s2.raydium_pool_pc_token.amount),
                                        repay_call(liquidity_amount),
                                        distribute_call(s4.user_destination_liquidity.amount),
                                    ],
                                ),
                            ),
                        },
                    },
                },
            },
        }
    }
}

/// Step 1, the flash loan's debit leg: move `amount` from the repay
/// reserve's liquidity supply into the invoker's source-liquidity
/// account, authorized by the lending-market authority.
pub fn invoke_flash_loan(ctx: &mut Liquidate, calls: &mut Vec<SubCall>, amount: u64) -> (r: Result<
    (),
    TokenError,
>)
    ensures
        match r {
            Ok(_) => spec_borrow(*old(ctx), amount) == Ok::<_, TokenError>(*final(ctx))
                && final(calls)@ == old(calls)@.push(borrow_call(amount)),
            Err(e) => spec_borrow(*old(ctx), amount) == Err::<Liquidate, _>(e) && *final(ctx)
                == *old(ctx) && final(calls)@ == old(calls)@,
        },
{
    match transfer(
        &mut ctx.repay_reserve_liquidity_supply,
        &mut ctx.user_source_liquidity,
        amount,
    ) {
        Ok(_) => {},
        Err(e) => {
            return Err(e);
        },
    }
    calls.push(
        SubCall {
            from: AccountRole::RepayReserveLiquiditySupply,
            to: AccountRole::UserSourceLiquidity,
            authority: AccountRole::LendingMarketAuthority,
            amount,
        },
    );
    Ok(())
}

/// Step 2, the collateral seizure: move `amount` of seized collateral
/// from the withdraw reserve's collateral supply into the invoker's
/// destination-collateral account, authorized by the lending-market
/// authority.
pub fn invoke_liquidation(ctx: &mut Liquidate, calls: &mut Vec<SubCall>, amount: u64) -> (r: Result<
    (),
    TokenError,
>)
    ensures
        match r {
            Ok(_) => spec_liquidation(*old(ctx), amount) == Ok::<_, TokenError>(*final(ctx))
                && final(calls)@ == old(calls)@.push(liquidation_call(amount)),
            Err(e) => spec_liquidation(*old(ctx), amount) == Err::<Liquidate, _>(e) && *final(ctx)
                == *old(ctx) && final(calls)@ == old(calls)@,
        },
{
    match transfer(
        &mut ctx.withdraw_reserve_collateral_supply,
        &mut ctx.user_destination_collateral,
        amount,
    ) {
        Ok(_) => {},
        Err(e) => {
            return Err(e);
        },
    }
    calls.push(
        SubCall {
            from: AccountRole::WithdrawReserveCollateralSupply,
            to: AccountRole::UserDestinationCollateral,
            authority: AccountRole::LendingMarketAuthority,
            amount,
        },
    );
    Ok(())
}

/// Step 3, the swap: move the entire destination-collateral balance into
/// the pool's coin-side account (authorized by the liquidator), then move
/// the entire pc-side pool balance into the invoker's
/// destination-liquidity account (authorized by the pool's authority).
/// Both amounts are read live just before each transfer. If the second
/// leg fails, the first leg's effect is undone, so the step as a whole is
/// all-or-nothing.
pub fn swap_collateral_to_usdc(ctx: &mut Liquidate, calls: &mut Vec<SubCall>) -> (r: Result<
    (),
    TokenError,
>)
    ensures
        match r {
            Ok(_) => spec_swap(*old(ctx)) == Ok::<_, TokenError>(*final(ctx)) && final(calls)@
                == old(calls)@.push(
                swap_deposit_call(old(ctx).user_destination_collateral.amount),
            ).push(swap_receive_call(old(ctx).raydium_pool_pc_token.amount)),
            Err(e) => spec_swap(*old(ctx)) == Err::<Liquidate, _>(e) && *final(ctx) == *old(ctx)
                && final(calls)@ == old(calls)@,
        },
{
    let snapshot = *ctx;
    let collateral_amount = ctx.user_destination_collateral.amount;
    match transfer(
        &mut ctx.user_destination_collateral,
        &mut ctx.raydium_pool_coin_token,
        collateral_amount,
    ) {
        Ok(_) => {},
        Err(e) => {
            return Err(e);
        },
    }
    let proceeds = ctx.raydium_pool_pc_token.amount;
    match transfer(
        &mut ctx.raydium_pool_pc_token,
        &mut ctx.user_destination_liquidity,
        proceeds,
    ) {
        Ok(_) => {},
        Err(e) => {
            *ctx = snapshot;
            return Err(e);
        },
    }
    calls.push(
        SubCall {
            from: AccountRole::UserDestinationCollateral,
            to: AccountRole::RaydiumPoolCoinToken,
            authority: AccountRole::Liquidator,
            amount: collateral_amount,
        },
    );
    calls.push(
        SubCall {
            from: AccountRole::RaydiumPoolPcToken,
            to: AccountRole::UserDestinationLiquidity,
            authority: AccountRole::RaydiumAmmAuthority,
            amount: proceeds,
        },
    );
    Ok(())
}

/// Step 4, the flash loan's credit leg: move `amount` back from the
/// invoker's source-liquidity account into the repay reserve's liquidity
/// supply, authorized by the liquidator. The amount matches the borrow of
/// step 1 exactly.
pub fn repay_flash_loan(ctx: &mut Liquidate, calls: &mut Vec<SubCall>, amount: u64) -> (r: Result<
    (),
    TokenError,
>)
    ensures
        match r {
            Ok(_) => spec_repay(*old(ctx), amount) == Ok::<_, TokenError>(*final(ctx))
                && final(calls)@ == old(calls)@.push(repay_call(amount)),
            Err(e) => spec_repay(*old(ctx), amount) == Err::<Liquidate, _>(e) && *final(ctx)
                == *old(ctx) && final(calls)@ == old(calls)@,
        },
{
    match transfer(
        &mut ctx.user_source_liquidity,
        &mut ctx.repay_reserve_liquidity_supply,
        amount,
    ) {
        Ok(_) => {},
        Err(e) => {
            return Err(e);
        },
    }
    calls.push(
        SubCall {
            from: AccountRole::UserSourceLiquidity,
            to: AccountRole::RepayReserveLiquiditySupply,
            authority: AccountRole::Liquidator,
            amount,
        },
    );
    Ok(())
}

/// Step 5, the profit distribution: move the entire destination-liquidity
/// balance, read live, to the invoker's profit account, authorized by the
/// liquidator. A zero balance fails with the no-profit error.
pub fn distribute_profit(ctx: &mut Liquidate, calls: &mut Vec<SubCall>) -> (r: Result<
    (),
    LiquidateError,
>)
    ensures
        match r {
            Ok(_) => spec_distribute(*old(ctx)) == Ok::<_, LiquidateError>(*final(ctx))
                && final(calls)@ == old(calls)@.push(
                distribute_call(old(ctx).user_destination_liquidity.amount),
            ),
            Err(e) => spec_distribute(*old(ctx)) == Err::<Liquidate, _>(e) && *final(ctx) == *old(
                ctx,
            ) && final(calls)@ == old(calls)@,
        },
{
    let profit_amount = ctx.user_destination_liquidity.amount;
    if profit_amount == 0 {
        return Err(LiquidateError::NoProfit);
    }
    match transfer(
        &mut ctx.user_destination_liquidity,
        &mut ctx.invoker_profit_account,
        profit_amount,
    ) {
        Ok(_) => {},
        Err(e) => {
            return Err(LiquidateError::SubCall(e));
        },
    }
    calls.push(
        SubCall {
            from: AccountRole::UserDestinationLiquidity,
            to: AccountRole::InvokerProfitAccount,
            authority: AccountRole::Liquidator,
            amount: profit_amount,
        },
    );
    Ok(())
}

/// The liquidation orchestrator: runs the five steps in their fixed order
/// inside one atomic attempt. On success it returns the exact ordered
/// sequence of transfer sub-calls issued; on any failure every prior
/// balance effect is rolled back, so a failed attempt is observably
/// indistinguishable from one never made.
pub fn liquidate_underwater_position(ctx: &mut Liquidate, liquidity_amount: u64) -> (r: Result<
    Vec<SubCall>,
    LiquidateError,
>)
    ensures
        match r {
            Ok(calls) => spec_liquidate(*old(ctx), liquidity_amount) == Ok::<_, LiquidateError>(
                (*final(ctx), calls@),
            ),
            Err(e) => spec_liquidate(*old(ctx), liquidity_amount) == Err::<
                (Liquidate, Seq<SubCall>),
                _,
            >(e) && *final(ctx) == *old(ctx),
        },
{
    if liquidity_amount == 0 {
        return Err(LiquidateError::InvalidArgument);
    }
    let snapshot = *ctx;
    let mut calls: Vec<SubCall> = Vec::new();
    match invoke_flash_loan(ctx, &mut calls, liquidity_amount) {
        Ok(_) => {},
        Err(e) => {
            *ctx = snapshot;
            return Err(LiquidateError::SubCall(e));
        },
    }
    match invoke_liquidation(ctx, &mut calls, liquidity_amount) {
        Ok(_) => {},
        Err(e) => {
            *ctx = snapshot;
            return Err(LiquidateError::SubCall(e));
        },
    }
    match swap_collateral_to_usdc(ctx, &mut calls) {
        Ok(_) => {},
        Err(e) => {
            *ctx = snapshot;
            return Err(LiquidateError::SubCall(e));
        },
    }
    match repay_flash_loan(ctx, &mut calls, liquidity_amount) {
        Ok(_) => {},
        Err(e) => {
            *ctx = snapshot;
            return Err(LiquidateError::SubCall(e));
        },
    }
    match distribute_profit(ctx, &mut calls) {
        Ok(_) => {},
        Err(e) => {
            *ctx = snapshot;
            return Err(e);
        },
    }
    proof {
        let outcome = spec_liquidate(*old(ctx), liquidity_amount);
        assert(outcome matches Ok(post_trace) && calls@ =~= post_trace.1);
    }
    Ok(calls)
}

/// Law: a successful run nets the flash loan to zero. It issues exactly
/// one borrow from the repay reserve's liquidity supply and exactly one
/// repay back into it, both of `liquidity_amount`, and leaves that
/// supply's balance (and the invoker's source-liquidity balance)
/// unchanged.
pub proof fn lemma_borrow_repay_net_zero(
    s: Liquidate,
    liquidity_amount: u64,
    post: Liquidate,
    calls: Seq<SubCall>,
)
    requires
        spec_liquidate(s, liquidity_amount) == Ok::<_, LiquidateError>((post, calls)),
    ensures
        liquidity_amount > 0,
        post.repay_reserve_liquidity_supply == s.repay_reserve_liquidity_supply,
        post.user_source_liquidity == s.user_source_liquidity,
        calls.len() == 6,
        calls[0] == borrow_call(liquidity_amount),
        calls[4] == repay_call(liquidity_amount),
        forall|i: int|
            0 <= i < calls.len() && i != 0 ==> (#[trigger] calls[i]).from
                != AccountRole::RepayReserveLiquiditySupply,
        forall|i: int|
            0 <= i < calls.len() && i != 4 ==> (#[trigger] calls[i]).to
                != AccountRole::RepayReserveLiquiditySupply,
{
}

/// Law: a zero liquidity amount is rejected with the invalid-argument
/// error before any sub-call is issued, whatever the account state.
pub proof fn lemma_zero_amount_rejected(s: Liquidate)
    ensures
        spec_liquidate(s, 0) == Err::<(Liquidate, Seq<SubCall>), _>(LiquidateError::InvalidArgument),
{
}

/// Law: when the swap's second leg can only leave the destination-
/// liquidity account empty (both it and the pc-side pool balance are
/// zero), the distribution step fails with the no-profit error, even
/// though every transfer before it succeeds. Combined with the
/// orchestrator's contract, a run that fails this way leaves every
/// balance exactly as it was.
pub proof fn lemma_zero_proceeds_fail_with_no_profit(s: Liquidate, liquidity_amount: u64)
    requires
        liquidity_amount > 0,
        s.user_destination_liquidity.amount == 0,
        s.raydium_pool_pc_token.amount == 0,
        s.repay_reserve_liquidity_supply.amount >= liquidity_amount,
        s.user_source_liquidity.amount + liquidity_amount <= u64::MAX,
        s.withdraw_reserve_collateral_supply.amount >= liquidity_amount,
        s.user_destination_collateral.amount + liquidity_amount <= u64::MAX,
        s.raydium_pool_coin_token.amount + s.user_destination_collateral.amount + liquidity_amount
            <= u64::MAX,
    ensures
        spec_liquidate(s, liquidity_amount) == Err::<(Liquidate, Seq<SubCall>), _>(
            LiquidateError::NoProfit,
        ),
{
}

/// Whether a party has proven signing authority for this execution: the
/// lending-market authority, the liquidator and the pool's own authority
/// are the only parties any sub-call may be authorized by.
pub open spec fn proven_authority(role: AccountRole) -> bool {
    ||| role == AccountRole::LendingMarketAuthority
    ||| role == AccountRole::Liquidator
    ||| role == AccountRole::RaydiumAmmAuthority
}

/// Law: every sub-call a successful run issues is authorized by a party
/// that has proven signing authority in the same execution.
pub proof fn lemma_subcalls_authorized(
    s: Liquidate,
    liquidity_amount: u64,
    post: Liquidate,
    calls: Seq<SubCall>,
)
    requires
        spec_liquidate(s, liquidity_amount) == Ok::<_, LiquidateError>((post, calls)),
    ensures
        forall|i: int| 0 <= i < calls.len() ==> proven_authority(#[trigger] calls[i].authority),
{
}

} // verus!
