use crate::address::{AccountHandle, Address};
use crate::error::ErrorCode;
use crate::pda::{
    open_orders_init_prefix, open_orders_init_seeds, open_orders_prefix, open_orders_seeds,
    program_address, verify_bump, with_bump,
};
use anchor_lang::solana_program::system_program;
use anchor_lang::solana_program::sysvar::rent;
use vstd::prelude::*;

verus! {

/// The venue's program address.
pub const DEX_PROGRAM_ID: [u8; 32] = [
    133, 15, 45, 110, 2, 164, 122, 248, 36, 208, 154, 182, 157, 196, 45, 112,
    203, 40, 203, 250, 36, 159, 183, 238, 87, 185, 210, 86, 193, 39, 98, 239,
];

/// The system program's address: 32 zero bytes.
pub open spec fn system_program_address() -> Seq<u8> {
    Seq::new(32, |i: int| 0u8)
}

/// Relies on `system_program::id`, whose address is declared as the base58
/// text of 32 ones, that is 32 zero bytes.
#[verifier::external_body]
fn system_program_id() -> (r: Address)
    ensures
        r@ == system_program_address(),
{
    Address { bytes: system_program::id().to_bytes() }
}

/// The rent sysvar's address, the base58 text `SysvarRent111111111111111111111111111111111`.
pub open spec fn rent_sysvar_address() -> Seq<u8> {
    seq![
        6u8, 167, 213, 23, 25, 44, 92, 81, 33, 140, 201, 76, 61, 74, 241, 127,
        88, 218, 238, 8, 155, 161, 253, 68, 227, 219, 217, 138, 0, 0, 0, 0,
    ]
}

/// Relies on `sysvar::rent::id`, declared as the base58 text
/// `SysvarRent111111111111111111111111111111111`.
#[verifier::external_body]
fn rent_sysvar_id() -> (r: Address)
    ensures
        r@ == rent_sysvar_address(),
{
    Address { bytes: rent::id().to_bytes() }
}

/// The accounts of a request that creates a caller's open orders account.
pub struct InitAccount {
    pub dex_program: AccountHandle,
    pub system_program: AccountHandle,
    pub open_orders: AccountHandle,
    pub authority: AccountHandle,
    pub market: AccountHandle,
    pub rent: AccountHandle,
    pub open_orders_init_authority: AccountHandle,
}

/// The first failed check on the accounts of an open orders creation, in the
/// order the checks are made, or `None` where all pass.
pub open spec fn init_account_error(program: Seq<u8>, accounts: Seq<AccountHandle>, bump: u8, bump_init: u8) -> Option<ErrorCode> {
    if accounts.len() < 7 {
        Some(ErrorCode::NotEnoughAccounts)
    } else if accounts[0].key@ != DEX_PROGRAM_ID@ {
        Some(ErrorCode::InvalidDexPid)
    } else if accounts[1].key@ != system_program_address() {
        Some(ErrorCode::InvalidSystemProgram)
    } else if program_address(with_bump(open_orders_seeds(accounts[4].key@, accounts[3].key@), bump), program)
        != Some(accounts[2].key@) {
        Some(ErrorCode::InvalidSeeds)
    } else if !accounts[3].is_signer {
        Some(ErrorCode::UnauthorizedUser)
    } else if accounts[5].key@ != rent_sysvar_address() {
        Some(ErrorCode::InvalidSysvar)
    } else if program_address(with_bump(open_orders_init_seeds(accounts[4].key@), bump_init), program)
        != Some(accounts[6].key@) {
        Some(ErrorCode::InvalidSeeds)
    } else {
        None
    }
}

impl InitAccount {
    /// Reads the seven accounts of an open orders creation and checks them:
    /// the venue program, the system program, the open orders account at the
    /// address its seeds and `bump` give, the caller as signer, the market, the
    /// rent sysvar, and the init authority at the address its seeds and
    /// `bump_init` give.
    pub fn try_accounts(program_id: &Address, accounts: &Vec<AccountHandle>, bump: u8, bump_init: u8) -> (r: Result<InitAccount, ErrorCode>)
        ensures
            match init_account_error(program_id@, accounts@, bump, bump_init) {
                Some(e) => r == Err::<InitAccount, ErrorCode>(e),
                None => r matches Ok(a) && a.dex_program == accounts@[0] && a.system_program == accounts@[1]
                    && a.open_orders == accounts@[2] && a.authority == accounts@[3] && a.market == accounts@[4]
                    && a.rent == accounts@[5] && a.open_orders_init_authority == accounts@[6],
            },
    {
        if accounts.len() < 7 {
            return Err(ErrorCode::NotEnoughAccounts);
        }
        let dex = Address::new(DEX_PROGRAM_ID);
        if !accounts[0].key.same_as(&dex) {
            return Err(ErrorCode::InvalidDexPid);
        }
        let system = system_program_id();
        if !accounts[1].key.same_as(&system) {
            return Err(ErrorCode::InvalidSystemProgram);
        }
        let market = accounts[4].key;
        let authority = accounts[3].key;
        let oo_seeds = open_orders_prefix(&market, &authority);
        if !verify_bump(program_id, &oo_seeds, bump, &accounts[2].key) {
            return Err(ErrorCode::InvalidSeeds);
        }
        if !accounts[3].is_signer {
            return Err(ErrorCode::UnauthorizedUser);
        }
        let rent_id = rent_sysvar_id();
        if !accounts[5].key.same_as(&rent_id) {
            return Err(ErrorCode::InvalidSysvar);
        }
        let init_seeds = open_orders_init_prefix(&market);
        if !verify_bump(program_id, &init_seeds, bump_init, &accounts[6].key) {
            return Err(ErrorCode::InvalidSeeds);
        }
        Ok(InitAccount {
            dex_program: accounts[0],
            system_program: accounts[1],
            open_orders: accounts[2],
            authority: accounts[3],
            market: accounts[4],
            rent: accounts[5],
            open_orders_init_authority: accounts[6],
        })
    }
}

} // verus!
