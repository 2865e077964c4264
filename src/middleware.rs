use crate::address::{AccountHandle, Address};
use crate::context::{Context, Request};
use crate::error::ErrorCode;
use crate::init_account::{init_account_error, InitAccount};
use crate::pda::{
    derived, derive_address, open_orders_authority, open_orders_authority_with_bump,
    open_orders_init_authority_with_bump, open_orders_init_prefix, open_orders_init_seeds,
    open_orders_prefix, open_orders_seeds, program_address, seeds_view, with_bump,
};
use serum_dex::instruction::{CancelOrderInstructionV2, NewOrderInstructionV3};
use vstd::prelude::*;

verus! {

/// Implementing this trait hooks into the requests that the proxy forwards
/// to the venue. Each method may read or change the context, or refuse the
/// request; `hook` states what the middleware does for each request kind.
pub trait MarketMiddleware {
    /// The hook of this middleware for `request` may take the context from
    /// `before` to `after` with result `r`.
    spec fn hook(&self, request: Request, before: Context, after: Context, r: Result<(), ErrorCode>) -> bool;

    fn init_open_orders(&self, ctx: &mut Context) -> (r: Result<(), ErrorCode>)
        ensures
            self.hook(Request::InitOpenOrders, *old(ctx), *final(ctx), r),
    ;

    fn new_order_v3(&self, ctx: &mut Context, ix: &NewOrderInstructionV3) -> (r: Result<(), ErrorCode>)
        ensures
            self.hook(Request::NewOrderV3(*ix), *old(ctx), *final(ctx), r),
    ;

    fn cancel_order_v2(&self, ctx: &mut Context, ix: &CancelOrderInstructionV2) -> (r: Result<(), ErrorCode>)
        ensures
            self.hook(Request::CancelOrderV2(*ix), *old(ctx), *final(ctx), r),
    ;

    fn cancel_order_by_client_id_v2(&self, ctx: &mut Context, client_id: u64) -> (r: Result<(), ErrorCode>)
        ensures
            self.hook(Request::CancelOrderByClientIdV2(client_id), *old(ctx), *final(ctx), r),
    ;

    fn settle_funds(&self, ctx: &mut Context) -> (r: Result<(), ErrorCode>)
        ensures
            self.hook(Request::SettleFunds, *old(ctx), *final(ctx), r),
    ;

    fn close_open_orders(&self, ctx: &mut Context) -> (r: Result<(), ErrorCode>)
        ensures
            self.hook(Request::CloseOpenOrders, *old(ctx), *final(ctx), r),
    ;

    /// Called when the instruction is none of the above.
    fn fallback(&self, ctx: &mut Context) -> (r: Result<(), ErrorCode>)
        ensures
            self.hook(Request::Unrecognized, *old(ctx), *final(ctx), r),
    ;
}

/// The hook accepts and leaves the context as it was.
pub open spec fn accepts_unchanged(before: Context, after: Context, r: Result<(), ErrorCode>) -> bool {
    r is Ok && after == before
}

/// The slot as handed on to the venue with the signer flag set.
pub open spec fn signed(h: AccountHandle) -> AccountHandle {
    AccountHandle { is_signer: true, ..h }
}

/// `after` is `before` with the caller's slot replaced by the signed open
/// orders slot, and with the seed set of the caller's open orders account,
/// under its canonical bump, appended.
pub open spec fn substituted(before: Context, after: Context, market: int, user: int, open_orders: int) -> bool {
    let m = before.accounts@[market].key@;
    let u = before.accounts@[user].key@;
    &&& after.program_id == before.program_id
    &&& after.data@ == before.data@
    &&& after.accounts@ == before.accounts@.update(user, signed(before.accounts@[open_orders]))
    &&& after.seed_sets().len() == before.seed_sets().len() + 1
    &&& after.seed_sets().drop_last() == before.seed_sets()
    &&& exists|b: u8, a: Seq<u8>| after.seed_sets().last() == with_bump(open_orders_seeds(m, u), b)
        && derived(before.program_id@, open_orders_seeds(m, u), a, b)
}

/// No bump gives an address for the caller's open orders account.
pub open spec fn no_viable_bump(ctx: Context, market: int, user: int) -> bool {
    forall|c: u8| 1 <= c ==> (#[trigger] program_address(
        with_bump(open_orders_seeds(ctx.accounts@[market].key@, ctx.accounts@[user].key@), c),
        ctx.program_id@,
    )) is None
}

/// The outcome of replacing the caller by its open orders account, for a
/// request kind whose market, caller and open orders account stand in the given
/// slots, with `needed` slots at least.
pub open spec fn substitution_outcome(
    before: Context,
    after: Context,
    r: Result<(), ErrorCode>,
    market: int,
    user: int,
    open_orders: int,
    needed: int,
) -> bool {
    if before.accounts@.len() < needed {
        r == Err::<(), ErrorCode>(ErrorCode::NotEnoughAccounts) && after == before
    } else if !before.accounts@[user].is_signer {
        r == Err::<(), ErrorCode>(ErrorCode::UnauthorizedUser) && after == before
    } else if no_viable_bump(before, market, user) {
        r == Err::<(), ErrorCode>(ErrorCode::NoViableBump) && after == before
    } else {
        r is Ok && substituted(before, after, market, user, open_orders)
    }
}

/// The slots forwarded after an open orders creation: the two program slots
/// dropped, the caller replaced by the signed open orders account, and the
/// init authority signed.
pub open spec fn init_forwarded(accounts: Seq<AccountHandle>) -> Seq<AccountHandle> {
    let rest = accounts.subrange(2, accounts.len() as int);
    rest.update(1, signed(rest[0])).update(4, signed(rest[4]))
}

/// The outcome of an open orders creation: the canonical bumps of the open
/// orders account and of the init authority are found, the accounts are
/// checked with them, and on success both seed sets are appended.
pub open spec fn init_outcome(before: Context, after: Context, r: Result<(), ErrorCode>) -> bool {
    let p = before.program_id@;
    let a = before.accounts@;
    if a.len() < 7 {
        r == Err::<(), ErrorCode>(ErrorCode::NotEnoughAccounts) && after == before
    } else if no_viable_bump(before, 4, 3) {
        r == Err::<(), ErrorCode>(ErrorCode::NoViableBump) && after == before
    } else if forall|c: u8| 1 <= c ==> (#[trigger] program_address(with_bump(open_orders_init_seeds(a[4].key@), c), p)) is None {
        r == Err::<(), ErrorCode>(ErrorCode::NoViableBump) && after == before
    } else {
        exists|b: u8, bi: u8, oo: Seq<u8>, init: Seq<u8>|
            derived(p, open_orders_seeds(a[4].key@, a[3].key@), oo, b)
            && derived(p, open_orders_init_seeds(a[4].key@), init, bi)
            && match init_account_error(p, a, b, bi) {
                Some(e) => r == Err::<(), ErrorCode>(e) && after == before,
                None => r is Ok
                    && after.program_id == before.program_id
                    && after.data@ == before.data@
                    && after.accounts@ == init_forwarded(a)
                    && after.seed_sets() == before.seed_sets()
                        .push(with_bump(open_orders_seeds(a[4].key@, a[3].key@), b))
                        .push(with_bump(open_orders_init_seeds(a[4].key@), bi)),
            }
    }
}

/// Checks that the caller signs the request and then replaces it by the
/// caller's open orders account, an address derived from the market and the
/// caller, for which the proxy signs.
pub struct OpenOrdersPda;

impl OpenOrdersPda {
    fn substitute(ctx: &mut Context, market: usize, user: usize, open_orders: usize, needed: usize) -> (r: Result<(), ErrorCode>)
        requires
            market < needed,
            user < needed,
            open_orders < needed,
        ensures
            substitution_outcome(*old(ctx), *final(ctx), r, market as int, user as int, open_orders as int, needed as int),
    {
        if ctx.accounts.len() < needed {
            return Err(ErrorCode::NotEnoughAccounts);
        }
        if !ctx.accounts[user].is_signer {
            return Err(ErrorCode::UnauthorizedUser);
        }
        let seeds = match open_orders_authority(&ctx.program_id, &ctx.accounts[market].key, &ctx.accounts[user].key) {
            Ok(s) => s,
            Err(e) => return Err(e),
        };
        let ghost before = *ctx;
        ctx.seeds.push(seeds);
        let pda = ctx.accounts[open_orders].as_signer();
        ctx.accounts.set(user, pda);
        proof {
            assert(ctx.seed_sets() =~= before.seed_sets().push(seeds_view(seeds@)));
            assert(ctx.seed_sets().drop_last() =~= before.seed_sets());
            assert(ctx.accounts@ =~= before.accounts@.update(user as int, signed(before.accounts@[open_orders as int])));
        }
        Ok(())
    }
}

impl MarketMiddleware for OpenOrdersPda {
    /// Slots of each request kind: market, caller, open orders, and how many
    /// slots it needs at least.
    open spec fn hook(&self, request: Request, before: Context, after: Context, r: Result<(), ErrorCode>) -> bool {
        match request {
            Request::InitOpenOrders => init_outcome(before, after, r),
            Request::NewOrderV3(_) => substitution_outcome(before, after, r, 0, 7, 1, 8),
            Request::CancelOrderV2(_) => substitution_outcome(before, after, r, 0, 4, 3, 5),
            Request::CancelOrderByClientIdV2(_) => substitution_outcome(before, after, r, 0, 4, 3, 5),
            Request::SettleFunds => substitution_outcome(before, after, r, 0, 2, 1, 3),
            Request::CloseOpenOrders => substitution_outcome(before, after, r, 3, 1, 0, 4),
            Request::Unrecognized => accepts_unchanged(before, after, r),
        }
    }

    /// Slots: venue program 0, system program 1, then those of the venue's
    /// open orders creation: open orders 2, caller 3, market 4, rent 5, init
    /// authority 6. The two program slots are not forwarded.
    fn init_open_orders(&self, ctx: &mut Context) -> (r: Result<(), ErrorCode>)
    {
        if ctx.accounts.len() < 7 {
            return Err(ErrorCode::NotEnoughAccounts);
        }
        let market = ctx.accounts[4].key;
        let user = ctx.accounts[3].key;
        let (oo_address, bump) = match derive_address(&ctx.program_id, &open_orders_prefix(&market, &user)) {
            Ok(found) => found,
            Err(e) => return Err(e),
        };
        let (init_address, bump_init) = match derive_address(&ctx.program_id, &open_orders_init_prefix(&market)) {
            Ok(found) => found,
            Err(e) => return Err(e),
        };
        match InitAccount::try_accounts(&ctx.program_id, &ctx.accounts, bump, bump_init) {
            Ok(_) => {},
            Err(e) => return Err(e),
        }
        let ghost before = *ctx;
        ctx.seeds.push(open_orders_authority_with_bump(&market, &user, bump));
        ctx.seeds.push(open_orders_init_authority_with_bump(&market, bump_init));
        let mut rest: Vec<AccountHandle> = Vec::new();
        let mut i: usize = 2;
        while i < ctx.accounts.len()
            invariant
                2 <= i <= ctx.accounts@.len(),
                rest@ == ctx.accounts@.subrange(2, i as int),
            decreases ctx.accounts@.len() - i,
        {
            rest.push(ctx.accounts[i]);
            i = i + 1;
            assert(rest@ =~= ctx.accounts@.subrange(2, i as int));
        }
        let pda = rest[0].as_signer();
        rest.set(1, pda);
        let init_authority = rest[4].as_signer();
        rest.set(4, init_authority);
        ctx.accounts = rest;
        proof {
            let sb = with_bump(open_orders_seeds(market@, user@), bump);
            let si = with_bump(open_orders_init_seeds(market@), bump_init);
            assert(ctx.seed_sets() =~= before.seed_sets().push(sb).push(si));
            assert(ctx.accounts@ =~= init_forwarded(before.accounts@));
            assert(derived(before.program_id@, open_orders_seeds(market@, user@), oo_address@, bump));
            assert(derived(before.program_id@, open_orders_init_seeds(market@), init_address@, bump_init));
        }
        Ok(())
    }

    /// Slots: market 0, open orders 1, caller 7.
    fn new_order_v3(&self, ctx: &mut Context, ix: &NewOrderInstructionV3) -> (r: Result<(), ErrorCode>)
    {
        Self::substitute(ctx, 0, 7, 1, 8)
    }

    /// Slots: market 0, open orders 3, caller 4.
    fn cancel_order_v2(&self, ctx: &mut Context, ix: &CancelOrderInstructionV2) -> (r: Result<(), ErrorCode>)
    {
        Self::substitute(ctx, 0, 4, 3, 5)
    }

    /// Slots: market 0, open orders 3, caller 4.
    fn cancel_order_by_client_id_v2(&self, ctx: &mut Context, client_id: u64) -> (r: Result<(), ErrorCode>)
    {
        Self::substitute(ctx, 0, 4, 3, 5)
    }

    /// Slots: market 0, open orders 1, caller 2.
    fn settle_funds(&self, ctx: &mut Context) -> (r: Result<(), ErrorCode>)
    {
        Self::substitute(ctx, 0, 2, 1, 3)
    }

    /// Slots: open orders 0, caller 1, market 3.
    fn close_open_orders(&self, ctx: &mut Context) -> (r: Result<(), ErrorCode>)
    {
        Self::substitute(ctx, 3, 1, 0, 4)
    }

    fn fallback(&self, ctx: &mut Context) -> (r: Result<(), ErrorCode>) {
        Ok(())
    }
}

} // verus!

verus! {

/// Marks each request kind for tracing; the trace itself is written by the
/// host. Never changes the context and never refuses.
pub struct Logger;

impl MarketMiddleware for Logger {
    open spec fn hook(&self, request: Request, before: Context, after: Context, r: Result<(), ErrorCode>) -> bool {
        accepts_unchanged(before, after, r)
    }

    fn init_open_orders(&self, ctx: &mut Context) -> (r: Result<(), ErrorCode>)
    {
        Ok(())
    }

    fn new_order_v3(&self, ctx: &mut Context, ix: &NewOrderInstructionV3) -> (r: Result<(), ErrorCode>)
    {
        Ok(())
    }

    fn cancel_order_v2(&self, ctx: &mut Context, ix: &CancelOrderInstructionV2) -> (r: Result<(), ErrorCode>)
    {
        Ok(())
    }

    fn cancel_order_by_client_id_v2(&self, ctx: &mut Context, client_id: u64) -> (r: Result<(), ErrorCode>)
    {
        Ok(())
    }

    fn settle_funds(&self, ctx: &mut Context) -> (r: Result<(), ErrorCode>)
    {
        Ok(())
    }

    fn close_open_orders(&self, ctx: &mut Context) -> (r: Result<(), ErrorCode>)
    {
        Ok(())
    }

    fn fallback(&self, ctx: &mut Context) -> (r: Result<(), ErrorCode>) {
        Ok(())
    }
}

/// Slot of a settlement that receives the referral share of the fees.
pub const REFERRAL_SLOT: usize = 9;

/// Enforces that referral fees of a settlement go to the configured address.
pub struct ReferralFees {
    referral: Address,
    enabled: bool,
}

/// The outcome of the referral check on a settlement.
pub open spec fn referral_outcome(referral: Seq<u8>, enabled: bool, before: Context, after: Context, r: Result<(), ErrorCode>) -> bool {
    &&& after == before
    &&& if before.accounts@.len() <= REFERRAL_SLOT {
        r == Err::<(), ErrorCode>(ErrorCode::NotEnoughAccounts)
    } else if enabled && before.accounts@[REFERRAL_SLOT as int].key@ != referral {
        r == Err::<(), ErrorCode>(ErrorCode::InvalidReferral)
    } else {
        r is Ok
    }
}

impl ReferralFees {
    /// A policy for the given address that is not enforced.
    pub fn new(referral: Address) -> (r: ReferralFees)
        ensures
            r.referral() == referral@,
            !r.enabled(),
    {
        ReferralFees { referral, enabled: false }
    }

    /// A policy for the given address, enforced where `enabled` holds.
    pub fn with_enforcement(referral: Address, enabled: bool) -> (r: ReferralFees)
        ensures
            r.referral() == referral@,
            r.enabled() == enabled,
    {
        ReferralFees { referral, enabled }
    }

    pub closed spec fn referral(&self) -> Seq<u8> {
        self.referral@
    }

    pub closed spec fn enabled(&self) -> bool {
        self.enabled
    }
}

impl MarketMiddleware for ReferralFees {
    /// Checks settlements only; every other request is accepted unchanged.
    open spec fn hook(&self, request: Request, before: Context, after: Context, r: Result<(), ErrorCode>) -> bool {
        match request {
            Request::SettleFunds => referral_outcome(self.referral(), self.enabled(), before, after, r),
            _ => accepts_unchanged(before, after, r),
        }
    }

    fn init_open_orders(&self, ctx: &mut Context) -> (r: Result<(), ErrorCode>) {
        Ok(())
    }

    fn new_order_v3(&self, ctx: &mut Context, ix: &NewOrderInstructionV3) -> (r: Result<(), ErrorCode>) {
        Ok(())
    }

    fn cancel_order_v2(&self, ctx: &mut Context, ix: &CancelOrderInstructionV2) -> (r: Result<(), ErrorCode>) {
        Ok(())
    }

    fn cancel_order_by_client_id_v2(&self, ctx: &mut Context, client_id: u64) -> (r: Result<(), ErrorCode>) {
        Ok(())
    }

    /// Slot 9 of a settlement receives the referral share.
    fn settle_funds(&self, ctx: &mut Context) -> (r: Result<(), ErrorCode>) {
        if ctx.accounts.len() <= REFERRAL_SLOT {
            return Err(ErrorCode::NotEnoughAccounts);
        }
        if self.enabled && !ctx.accounts[REFERRAL_SLOT].key.same_as(&self.referral) {
            return Err(ErrorCode::InvalidReferral);
        }
        Ok(())
    }

    fn close_open_orders(&self, ctx: &mut Context) -> (r: Result<(), ErrorCode>) {
        Ok(())
    }

    fn fallback(&self, ctx: &mut Context) -> (r: Result<(), ErrorCode>) {
        Ok(())
    }
}

/// One of the middlewares of this library, so that a chain can mix them.
pub enum Middleware {
    OpenOrdersPda(OpenOrdersPda),
    Logger(Logger),
    ReferralFees(ReferralFees),
}

impl MarketMiddleware for Middleware {
    open spec fn hook(&self, request: Request, before: Context, after: Context, r: Result<(), ErrorCode>) -> bool {
        match self {
            Middleware::OpenOrdersPda(m) => m.hook(request, before, after, r),
            Middleware::Logger(m) => m.hook(request, before, after, r),
            Middleware::ReferralFees(m) => m.hook(request, before, after, r),
        }
    }

    fn init_open_orders(&self, ctx: &mut Context) -> (r: Result<(), ErrorCode>) {
        match self {
            Middleware::OpenOrdersPda(m) => m.init_open_orders(ctx),
            Middleware::Logger(m) => m.init_open_orders(ctx),
            Middleware::ReferralFees(m) => m.init_open_orders(ctx),
        }
    }

    fn new_order_v3(&self, ctx: &mut Context, ix: &NewOrderInstructionV3) -> (r: Result<(), ErrorCode>) {
        match self {
            Middleware::OpenOrdersPda(m) => m.new_order_v3(ctx, ix),
            Middleware::Logger(m) => m.new_order_v3(ctx, ix),
            Middleware::ReferralFees(m) => m.new_order_v3(ctx, ix),
        }
    }

    fn cancel_order_v2(&self, ctx: &mut Context, ix: &CancelOrderInstructionV2) -> (r: Result<(), ErrorCode>) {
        match self {
            Middleware::OpenOrdersPda(m) => m.cancel_order_v2(ctx, ix),
            Middleware::Logger(m) => m.cancel_order_v2(ctx, ix),
            Middleware::ReferralFees(m) => m.cancel_order_v2(ctx, ix),
        }
    }

    fn cancel_order_by_client_id_v2(&self, ctx: &mut Context, client_id: u64) -> (r: Result<(), ErrorCode>) {
        match self {
            Middleware::OpenOrdersPda(m) => m.cancel_order_by_client_id_v2(ctx, client_id),
            Middleware::Logger(m) => m.cancel_order_by_client_id_v2(ctx, client_id),
            Middleware::ReferralFees(m) => m.cancel_order_by_client_id_v2(ctx, client_id),
        }
    }

    fn settle_funds(&self, ctx: &mut Context) -> (r: Result<(), ErrorCode>) {
        match self {
            Middleware::OpenOrdersPda(m) => m.settle_funds(ctx),
            Middleware::Logger(m) => m.settle_funds(ctx),
            Middleware::ReferralFees(m) => m.settle_funds(ctx),
        }
    }

    fn close_open_orders(&self, ctx: &mut Context) -> (r: Result<(), ErrorCode>) {
        match self {
            Middleware::OpenOrdersPda(m) => m.close_open_orders(ctx),
            Middleware::Logger(m) => m.close_open_orders(ctx),
            Middleware::ReferralFees(m) => m.close_open_orders(ctx),
        }
    }

    fn fallback(&self, ctx: &mut Context) -> (r: Result<(), ErrorCode>) {
        match self {
            Middleware::OpenOrdersPda(m) => m.fallback(ctx),
            Middleware::Logger(m) => m.fallback(ctx),
            Middleware::ReferralFees(m) => m.fallback(ctx),
        }
    }
}

} // verus!
