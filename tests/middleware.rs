use anchor_lang::solana_program::pubkey::Pubkey;
use dex_middleware::{
    derive_address, open_orders_authority, open_orders_authority_with_bump,
    open_orders_init_authority, open_orders_init_authority_with_bump, process, verify_bump,
    AccountHandle, Address, Context, ErrorCode, InitAccount, Logger, MarketMiddleware,
    Middleware, OpenOrdersPda, ReferralFees, Request, DEX_PROGRAM_ID,
};
use serum_dex::instruction::{
    CancelOrderInstructionV2, MarketInstruction, NewOrderInstructionV3, SelfTradeBehavior,
};
use serum_dex::matching::{OrderType, Side};
use std::cell::Cell;
use std::num::NonZeroU64;

fn addr(b: u8) -> Address {
    Address::new([b; 32])
}

fn handle(key: Address, signer: bool, origin: usize) -> AccountHandle {
    AccountHandle { key, owner: addr(0), is_signer: signer, is_writable: true, origin }
}

fn handles(n: usize) -> Vec<AccountHandle> {
    (0..n).map(|i| handle(addr(100 + i as u8), false, i)).collect()
}

fn program() -> Address {
    addr(7)
}

fn oo_prefix(market: &Address, user: &Address) -> Vec<Vec<u8>> {
    vec![b"open-orders".to_vec(), market.bytes.to_vec(), user.bytes.to_vec()]
}

fn new_order() -> NewOrderInstructionV3 {
    NewOrderInstructionV3 {
        side: Side::Bid,
        limit_price: NonZeroU64::new(10).unwrap(),
        max_coin_qty: NonZeroU64::new(5).unwrap(),
        max_native_pc_qty_including_fees: NonZeroU64::new(50).unwrap(),
        self_trade_behavior: SelfTradeBehavior::DecrementTake,
        order_type: OrderType::Limit,
        client_order_id: 42,
        limit: 10,
    }
}

fn cancel_order() -> CancelOrderInstructionV2 {
    CancelOrderInstructionV2 { side: Side::Ask, order_id: 99 }
}

/// Accounts of an open orders creation for market `m` and caller `u`.
fn init_accounts(m: Address, u: Address, signed: bool) -> Vec<AccountHandle> {
    let (oo, _) = derive_address(&program(), &oo_prefix(&m, &u)).unwrap();
    let init_prefix = vec![b"open-orders-init".to_vec(), m.bytes.to_vec()];
    let (init, _) = derive_address(&program(), &init_prefix).unwrap();
    vec![
        handle(Address::new(DEX_PROGRAM_ID), false, 0),
        handle(addr(0), false, 1),
        handle(oo, false, 2),
        handle(u, signed, 3),
        handle(m, false, 4),
        handle(Address::new(anchor_lang::solana_program::sysvar::rent::id().to_bytes()), false, 5),
        handle(init, false, 6),
    ]
}

#[test]
fn derive_is_deterministic() {
    let seeds = oo_prefix(&addr(1), &addr(2));
    let (a1, b1) = derive_address(&program(), &seeds).unwrap();
    let (a2, b2) = derive_address(&program(), &seeds).unwrap();
    assert_eq!(a1.bytes, a2.bytes);
    assert_eq!(b1, b2);
}

#[test]
fn derive_matches_the_runtime() {
    let seeds = oo_prefix(&addr(1), &addr(2));
    let (a, b) = derive_address(&program(), &seeds).unwrap();
    let refs: Vec<&[u8]> = seeds.iter().map(|s| s.as_slice()).collect();
    let (expected, bump) = Pubkey::find_program_address(&refs, &Pubkey::new_from_array([7; 32]));
    assert_eq!(a.bytes, expected.to_bytes());
    assert_eq!(b, bump);
    assert_ne!(a.bytes, [7; 32]);
}

#[test]
fn canonical_bump_is_largest() {
    let pid = Pubkey::new_from_array([7; 32]);
    for k in 0..20u8 {
        let seeds = oo_prefix(&addr(k), &addr(k + 1));
        let (_, b) = derive_address(&program(), &seeds).unwrap();
        for c in (b as u16 + 1)..=255 {
            let bump = [c as u8];
            let mut refs: Vec<&[u8]> = seeds.iter().map(|s| s.as_slice()).collect();
            refs.push(&bump);
            assert!(Pubkey::create_program_address(&refs, &pid).is_err());
        }
    }
}

#[test]
fn derived_address_is_off_curve() {
    for k in 0..20u8 {
        let (a, _) = derive_address(&program(), &oo_prefix(&addr(k), &addr(3))).unwrap();
        assert!(!Pubkey::new_from_array(a.bytes).is_on_curve());
    }
}

#[test]
fn too_many_seeds_have_no_bump() {
    let seeds: Vec<Vec<u8>> = (0..16).map(|i| vec![i as u8]).collect();
    assert_eq!(derive_address(&program(), &seeds).err(), Some(ErrorCode::NoViableBump));
    let long = vec![vec![1u8; 33]];
    assert_eq!(derive_address(&program(), &long).err(), Some(ErrorCode::NoViableBump));
}

#[test]
fn verify_bump_accepts_only_the_derived_address() {
    let seeds = oo_prefix(&addr(1), &addr(2));
    let (a, b) = derive_address(&program(), &seeds).unwrap();
    assert!(verify_bump(&program(), &seeds, b, &a));
    assert!(!verify_bump(&program(), &seeds, b, &addr(1)));
    assert!(!verify_bump(&program(), &seeds, b.wrapping_sub(1), &a));
}

#[test]
fn seed_sets_hold_tag_keys_and_bump() {
    let m = addr(1);
    let u = addr(2);
    let s = open_orders_authority_with_bump(&m, &u, 250);
    assert_eq!(s, vec![b"open-orders".to_vec(), vec![1; 32], vec![2; 32], vec![250]]);
    let i = open_orders_init_authority_with_bump(&m, 3);
    assert_eq!(i, vec![b"open-orders-init".to_vec(), vec![1; 32], vec![3]]);
    let (_, b) = derive_address(&program(), &oo_prefix(&m, &u)).unwrap();
    assert_eq!(open_orders_authority(&program(), &m, &u).unwrap(), open_orders_authority_with_bump(&m, &u, b));
    let init_prefix = vec![b"open-orders-init".to_vec(), m.bytes.to_vec()];
    let (_, bi) = derive_address(&program(), &init_prefix).unwrap();
    assert_eq!(open_orders_init_authority(&program(), &m).unwrap(), open_orders_init_authority_with_bump(&m, bi));
}

fn check_substitution(
    run: &dyn Fn(&mut Context) -> Result<(), ErrorCode>,
    market: usize,
    user: usize,
    open_orders: usize,
    needed: usize,
) {
    // Unsigned caller: refused, nothing changed.
    let mut ctx = Context::new(program(), handles(needed), vec![1, 2, 3]);
    assert_eq!(run(&mut ctx), Err(ErrorCode::UnauthorizedUser));
    assert_eq!(ctx.accounts.len(), needed);
    assert!(ctx.accounts.iter().enumerate().all(|(i, a)| a.origin == i && !a.is_signer));
    assert!(ctx.seeds.is_empty());
    // Too few slots.
    let mut short = handles(needed - 1);
    if user < needed - 1 {
        short[user].is_signer = true;
    }
    let mut ctx = Context::new(program(), short, vec![]);
    assert_eq!(run(&mut ctx), Err(ErrorCode::NotEnoughAccounts));
    assert!(ctx.seeds.is_empty());
    assert_eq!(ctx.accounts.len(), needed - 1);
    // Signed caller: replaced by the signed open orders slot.
    let mut accounts = handles(needed + 2);
    accounts[user].is_signer = true;
    let m = accounts[market].key;
    let u = accounts[user].key;
    let mut ctx = Context::new(program(), accounts, vec![4]);
    assert_eq!(run(&mut ctx), Ok(()));
    assert_eq!(ctx.accounts.len(), needed + 2);
    assert_eq!(ctx.accounts[user].origin, open_orders);
    assert_eq!(ctx.accounts[user].key.bytes, [100 + open_orders as u8; 32]);
    assert!(ctx.accounts[user].is_signer);
    assert!(!ctx.accounts[open_orders].is_signer);
    assert_eq!(ctx.seeds, vec![open_orders_authority(&program(), &m, &u).unwrap()]);
    assert_eq!(ctx.data, vec![4]);
}

#[test]
fn new_order_replaces_caller() {
    let ix = new_order();
    check_substitution(&|c| OpenOrdersPda.new_order_v3(c, &ix), 0, 7, 1, 8);
}

#[test]
fn cancel_order_replaces_caller() {
    let ix = cancel_order();
    check_substitution(&|c| OpenOrdersPda.cancel_order_v2(c, &ix), 0, 4, 3, 5);
}

#[test]
fn cancel_by_client_id_replaces_caller() {
    check_substitution(&|c| OpenOrdersPda.cancel_order_by_client_id_v2(c, 5), 0, 4, 3, 5);
}

#[test]
fn settle_funds_replaces_caller() {
    check_substitution(&|c| OpenOrdersPda.settle_funds(c), 0, 2, 1, 3);
}

#[test]
fn close_open_orders_replaces_caller() {
    check_substitution(&|c| OpenOrdersPda.close_open_orders(c), 3, 1, 0, 4);
}

#[test]
fn init_open_orders_end_to_end() {
    let m = addr(1);
    let u = addr(2);
    let accounts = init_accounts(m, u, true);
    let mut ctx = Context::new(program(), accounts.clone(), vec![0, 15, 0, 0, 0]);
    assert_eq!(OpenOrdersPda.init_open_orders(&mut ctx), Ok(()));
    let (_, b) = derive_address(&program(), &oo_prefix(&m, &u)).unwrap();
    let init_prefix = vec![b"open-orders-init".to_vec(), m.bytes.to_vec()];
    let (_, bi) = derive_address(&program(), &init_prefix).unwrap();
    assert_eq!(
        ctx.seeds,
        vec![open_orders_authority_with_bump(&m, &u, b), open_orders_init_authority_with_bump(&m, bi)]
    );
    let origins: Vec<usize> = ctx.accounts.iter().map(|a| a.origin).collect();
    assert_eq!(origins, vec![2, 2, 4, 5, 6]);
    let signers: Vec<bool> = ctx.accounts.iter().map(|a| a.is_signer).collect();
    assert_eq!(signers, vec![false, true, false, false, true]);
    assert_eq!(ctx.accounts[1].key.bytes, accounts[2].key.bytes);
}

#[test]
fn init_open_orders_through_process() {
    let m = addr(3);
    let u = addr(4);
    let f = process(&vec![OpenOrdersPda], program(), init_accounts(m, u, true), vec![0, 15, 0, 0, 0]).unwrap();
    assert_eq!(f.data, vec![0, 15, 0, 0, 0]);
    assert_eq!(f.accounts.len(), 5);
    assert_eq!(f.seeds.len(), 2);
    assert_eq!(f.seeds[0][0], b"open-orders".to_vec());
    assert_eq!(f.seeds[1][0], b"open-orders-init".to_vec());
    assert!(f.accounts.iter().all(|a| a.origin >= 2));
}

#[test]
fn init_open_orders_refusals() {
    let m = addr(1);
    let u = addr(2);
    let mut ctx = Context::new(program(), init_accounts(m, u, false), vec![]);
    assert_eq!(OpenOrdersPda.init_open_orders(&mut ctx), Err(ErrorCode::UnauthorizedUser));
    assert_eq!(ctx.accounts.len(), 7);
    assert!(ctx.seeds.is_empty());

    let mut short = init_accounts(m, u, true);
    short.pop();
    let mut ctx = Context::new(program(), short, vec![]);
    assert_eq!(OpenOrdersPda.init_open_orders(&mut ctx), Err(ErrorCode::NotEnoughAccounts));

    let mut bad = init_accounts(m, u, true);
    bad[0].key = addr(8);
    let mut ctx = Context::new(program(), bad, vec![]);
    assert_eq!(OpenOrdersPda.init_open_orders(&mut ctx), Err(ErrorCode::InvalidDexPid));

    let mut bad = init_accounts(m, u, true);
    bad[1].key = addr(8);
    let mut ctx = Context::new(program(), bad, vec![]);
    assert_eq!(OpenOrdersPda.init_open_orders(&mut ctx), Err(ErrorCode::InvalidSystemProgram));

    let mut bad = init_accounts(m, u, true);
    bad[2].key = addr(8);
    let mut ctx = Context::new(program(), bad, vec![]);
    assert_eq!(OpenOrdersPda.init_open_orders(&mut ctx), Err(ErrorCode::InvalidSeeds));

    let mut bad = init_accounts(m, u, true);
    bad[5].key = addr(9);
    let mut ctx = Context::new(program(), bad, vec![]);
    assert_eq!(OpenOrdersPda.init_open_orders(&mut ctx), Err(ErrorCode::InvalidSysvar));

    let mut bad = init_accounts(m, u, true);
    bad[6].key = addr(8);
    let mut ctx = Context::new(program(), bad, vec![]);
    assert_eq!(OpenOrdersPda.init_open_orders(&mut ctx), Err(ErrorCode::InvalidSeeds));
    assert_eq!(ctx.accounts.len(), 7);
}

#[test]
fn try_accounts_reads_the_seven_slots() {
    let m = addr(1);
    let u = addr(2);
    let accounts = init_accounts(m, u, true);
    let (_, b) = derive_address(&program(), &oo_prefix(&m, &u)).unwrap();
    let init_prefix = vec![b"open-orders-init".to_vec(), m.bytes.to_vec()];
    let (_, bi) = derive_address(&program(), &init_prefix).unwrap();
    let a = InitAccount::try_accounts(&program(), &accounts, b, bi).ok().unwrap();
    assert_eq!(a.authority.origin, 3);
    assert_eq!(a.open_orders_init_authority.origin, 6);
    assert_eq!(
        InitAccount::try_accounts(&program(), &accounts, b.wrapping_sub(1), bi).err(),
        Some(ErrorCode::InvalidSeeds)
    );
}

fn settle_accounts(referral: Address) -> Vec<AccountHandle> {
    let mut a = handles(10);
    a[9].key = referral;
    a
}

#[test]
fn referral_enforced() {
    let policy = ReferralFees::with_enforcement(addr(5), true);
    let mut ctx = Context::new(program(), settle_accounts(addr(6)), vec![]);
    assert_eq!(policy.settle_funds(&mut ctx), Err(ErrorCode::InvalidReferral));
    let mut ctx = Context::new(program(), settle_accounts(addr(5)), vec![]);
    assert_eq!(policy.settle_funds(&mut ctx), Ok(()));
    let mut ctx = Context::new(program(), handles(9), vec![]);
    assert_eq!(policy.settle_funds(&mut ctx), Err(ErrorCode::NotEnoughAccounts));
}

#[test]
fn referral_not_enforced_by_default() {
    let policy = ReferralFees::new(addr(5));
    let mut ctx = Context::new(program(), settle_accounts(addr(6)), vec![]);
    assert_eq!(policy.settle_funds(&mut ctx), Ok(()));
    assert_eq!(policy.init_open_orders(&mut ctx), Ok(()));
}

#[test]
fn logger_changes_nothing() {
    let mut ctx = Context::new(program(), handles(3), vec![9]);
    assert_eq!(Logger.settle_funds(&mut ctx), Ok(()));
    assert_eq!(Logger.new_order_v3(&mut ctx, &new_order()), Ok(()));
    assert_eq!(Logger.fallback(&mut ctx), Ok(()));
    assert_eq!(ctx.accounts.len(), 3);
    assert!(ctx.seeds.is_empty());
    assert_eq!(ctx.data, vec![9]);
}

/// A middleware that counts its calls and may refuse.
struct Probe<'a> {
    calls: &'a Cell<u32>,
    fallbacks: &'a Cell<u32>,
    fail: Option<ErrorCode>,
}

impl<'a> MarketMiddleware for Probe<'a> {
    fn hook(&self, _: Request, _: Context, _: Context, _: Result<(), ErrorCode>) -> bool {
        true
    }

    fn init_open_orders(&self, _ctx: &mut Context) -> Result<(), ErrorCode> {
        Ok(())
    }

    fn new_order_v3(&self, _ctx: &mut Context, _ix: &NewOrderInstructionV3) -> Result<(), ErrorCode> {
        Ok(())
    }

    fn cancel_order_v2(&self, _ctx: &mut Context, _ix: &CancelOrderInstructionV2) -> Result<(), ErrorCode> {
        Ok(())
    }

    fn cancel_order_by_client_id_v2(&self, _ctx: &mut Context, _client_id: u64) -> Result<(), ErrorCode> {
        Ok(())
    }

    fn close_open_orders(&self, _ctx: &mut Context) -> Result<(), ErrorCode> {
        Ok(())
    }

    fn settle_funds(&self, _ctx: &mut Context) -> Result<(), ErrorCode> {
        self.calls.set(self.calls.get() + 1);
        match self.fail {
            Some(e) => Err(e),
            None => Ok(()),
        }
    }

    fn fallback(&self, _ctx: &mut Context) -> Result<(), ErrorCode> {
        self.fallbacks.set(self.fallbacks.get() + 1);
        Ok(())
    }
}

#[test]
fn chain_stops_at_first_error() {
    let c: Vec<Cell<u32>> = (0..3).map(|_| Cell::new(0)).collect();
    let f = Cell::new(0);
    let chain = vec![
        Probe { calls: &c[0], fallbacks: &f, fail: None },
        Probe { calls: &c[1], fallbacks: &f, fail: Some(ErrorCode::InvalidReferral) },
        Probe { calls: &c[2], fallbacks: &f, fail: None },
    ];
    let r = process(&chain, program(), handles(10), vec![0, 5, 0, 0, 0]);
    assert_eq!(r.err(), Some(ErrorCode::InvalidReferral));
    assert_eq!(c[0].get(), 1);
    assert_eq!(c[1].get(), 1);
    assert_eq!(c[2].get(), 0);
}

#[test]
fn unknown_instruction_goes_to_fallback() {
    let c = Cell::new(0);
    let f = Cell::new(0);
    let chain = vec![Probe { calls: &c, fallbacks: &f, fail: None }];
    let out = process(&chain, program(), handles(2), vec![0, 99, 0, 0, 0]).unwrap();
    assert_eq!(f.get(), 1);
    assert_eq!(c.get(), 0);
    assert_eq!(out.data, vec![0, 99, 0, 0, 0]);
    process(&chain, program(), handles(2), vec![]).unwrap();
    assert_eq!(f.get(), 2);
}

#[test]
fn process_routes_by_tag() {
    let mut accounts = handles(10);
    accounts[2].is_signer = true;
    let f = process(&vec![OpenOrdersPda], program(), accounts.clone(), vec![0, 5, 0, 0, 0]).unwrap();
    assert_eq!(f.seeds.len(), 1);
    assert_eq!(f.accounts[2].origin, 1);

    let data = MarketInstruction::CancelOrderByClientIdV2(7).pack();
    let mut accounts = handles(6);
    accounts[4].is_signer = true;
    let f = process(&vec![OpenOrdersPda], program(), accounts, data.clone()).unwrap();
    assert_eq!(f.data, data);
    assert_eq!(f.accounts[4].origin, 3);

    let data = MarketInstruction::NewOrderV3(new_order()).pack();
    let r = process(&vec![OpenOrdersPda], program(), handles(12), data);
    assert_eq!(r.err(), Some(ErrorCode::UnauthorizedUser));
}

#[test]
fn empty_chain_forwards_as_is() {
    let chain: Vec<Logger> = Vec::new();
    let f = process(&chain, program(), handles(4), vec![0, 14, 0, 0, 0]).unwrap();
    assert_eq!(f.accounts.len(), 4);
    assert!(f.seeds.is_empty());
}

#[test]
fn error_messages() {
    assert_eq!(ErrorCode::UnauthorizedUser.message(), "The user didn't sign");
    assert_eq!(ErrorCode::NotEnoughAccounts.message(), "Not enough accounts were provided");
    assert_ne!(ErrorCode::InvalidSeeds.message(), ErrorCode::NoViableBump.message());
}

#[test]
fn mixed_chain_stops_at_unsigned_caller() {
    let chain = vec![
        Middleware::Logger(Logger),
        Middleware::OpenOrdersPda(OpenOrdersPda),
        Middleware::ReferralFees(ReferralFees::with_enforcement(addr(5), true)),
    ];
    let accounts = settle_accounts(addr(6));
    let r = process(&chain, program(), accounts, vec![0, 5, 0, 0, 0]);
    assert_eq!(r.err(), Some(ErrorCode::UnauthorizedUser));
}

#[test]
fn mixed_chain_forwards_settlement() {
    let chain = vec![
        Middleware::Logger(Logger),
        Middleware::OpenOrdersPda(OpenOrdersPda),
        Middleware::ReferralFees(ReferralFees::with_enforcement(addr(5), true)),
    ];
    let mut accounts = settle_accounts(addr(5));
    accounts[2].is_signer = true;
    let f = process(&chain, program(), accounts.clone(), vec![0, 5, 0, 0, 0]).unwrap();
    assert_eq!(f.seeds, vec![open_orders_authority(&program(), &accounts[0].key, &accounts[2].key).unwrap()]);
    assert_eq!(f.accounts[2].origin, 1);
    assert!(f.accounts[2].is_signer);
    assert!(!f.creates_open_orders);

    let mut wrong = settle_accounts(addr(6));
    wrong[2].is_signer = true;
    let r = process(&chain, program(), wrong, vec![0, 5, 0, 0, 0]);
    assert_eq!(r.err(), Some(ErrorCode::InvalidReferral));
}

#[test]
fn pda_and_referral_accept_unknown_requests() {
    let mut ctx = Context::new(program(), handles(2), vec![1]);
    assert_eq!(OpenOrdersPda.fallback(&mut ctx), Ok(()));
    let policy = ReferralFees::with_enforcement(addr(5), true);
    assert_eq!(policy.fallback(&mut ctx), Ok(()));
    assert_eq!(policy.cancel_order_v2(&mut ctx, &cancel_order()), Ok(()));
    assert_eq!(ctx.accounts.len(), 2);
    assert!(ctx.seeds.is_empty());
}
