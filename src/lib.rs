//! Middleware pipeline for a proxy in front of an order-book venue.
//!
//! Requests to the venue pass through an ordered chain of middlewares that
//! share one mutable [`Context`]. The central middleware, [`OpenOrdersPda`],
//! replaces the caller's own trading account by an address derived from the
//! market and the caller, and records the seeds that let the proxy sign for it.

mod address;
mod context;
mod error;
mod init_account;
mod laws;
mod middleware;
mod pda;
mod proxy;

pub use address::{AccountHandle, Address};
pub use context::{bare_instruction, decoded_request, framed_instruction, Context, Request};
pub use error::ErrorCode;
pub use init_account::{init_account_error, rent_sysvar_address, system_program_address, InitAccount, DEX_PROGRAM_ID};
pub use laws::{
    canonical_bump_unique, derivation_deterministic, derived_address_off_curve,
    derived_bump_is_largest, enforced_referral, short_creation_refused, short_request_refused,
    unsigned_caller_refused,
};
pub use middleware::{
    accepts_unchanged, init_forwarded, init_outcome, Middleware, no_viable_bump, referral_outcome, signed, substituted,
    substitution_outcome, Logger, MarketMiddleware, OpenOrdersPda, ReferralFees, REFERRAL_SLOT,
};
pub use pda::{
    canonical_bump, curve_point, derive_address, derived, open_orders_authority, open_orders_authority_with_bump,
    open_orders_init_authority, open_orders_init_authority_with_bump, open_orders_init_seeds,
    open_orders_init_tag, open_orders_seeds, open_orders_tag, program_address, seeds_fit,
    seeds_view, verify_bump, with_bump,
};
pub use proxy::{accepted_run, fresh, process, Forward};
