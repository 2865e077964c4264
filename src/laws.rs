use crate::context::Context;
use crate::error::ErrorCode;
use crate::middleware::{init_outcome, referral_outcome, substitution_outcome, REFERRAL_SLOT};
use crate::pda::{canonical_bump, curve_point, derived, program_address, with_bump};
use vstd::prelude::*;

verus! {

/// Two canonical bumps of the same seeds under the same program are equal.
pub proof fn canonical_bump_unique(program: Seq<u8>, seeds: Seq<Seq<u8>>, b1: u8, b2: u8)
    requires
        canonical_bump(seeds, program, b1),
        canonical_bump(seeds, program, b2),
    ensures
        b1 == b2,
{
    if b1 < b2 {
        assert(program_address(with_bump(seeds, b2), program) is None);
    } else if b2 < b1 {
        assert(program_address(with_bump(seeds, b1), program) is None);
    }
}

/// Derivation is a function: the same seeds under the same program give the
/// same address and the same bump.
pub proof fn derivation_deterministic(program: Seq<u8>, seeds: Seq<Seq<u8>>, a1: Seq<u8>, b1: u8, a2: Seq<u8>, b2: u8)
    requires
        derived(program, seeds, a1, b1),
        derived(program, seeds, a2, b2),
    ensures
        a1 == a2,
        b1 == b2,
{
    canonical_bump_unique(program, seeds, b1, b2);
}

/// No bump above the derived one gives an address for the same seeds.
pub proof fn derived_bump_is_largest(program: Seq<u8>, seeds: Seq<Seq<u8>>, address: Seq<u8>, bump: u8, other: u8)
    requires
        derived(program, seeds, address, bump),
        bump < other,
    ensures
        program_address(with_bump(seeds, other), program) is None,
{
}

/// A derived address is never a point on the curve.
pub proof fn derived_address_off_curve(program: Seq<u8>, seeds: Seq<Seq<u8>>, address: Seq<u8>, bump: u8)
    requires
        derived(program, seeds, address, bump),
    ensures
        !curve_point(address),
{
}

/// A request whose caller slot does not sign is refused with
/// `UnauthorizedUser`, and the context is left as it was.
pub proof fn unsigned_caller_refused(
    before: Context,
    after: Context,
    r: Result<(), ErrorCode>,
    market: int,
    user: int,
    open_orders: int,
    needed: int,
)
    requires
        substitution_outcome(before, after, r, market, user, open_orders, needed),
        0 <= user < needed <= before.accounts@.len(),
        !before.accounts@[user].is_signer,
    ensures
        r == Err::<(), ErrorCode>(ErrorCode::UnauthorizedUser),
        after == before,
{
}

/// A request with fewer slots than its kind needs is refused with
/// `NotEnoughAccounts`, and the context is left as it was.
pub proof fn short_request_refused(
    before: Context,
    after: Context,
    r: Result<(), ErrorCode>,
    market: int,
    user: int,
    open_orders: int,
    needed: int,
)
    requires
        substitution_outcome(before, after, r, market, user, open_orders, needed),
        before.accounts@.len() < needed,
    ensures
        r == Err::<(), ErrorCode>(ErrorCode::NotEnoughAccounts),
        after == before,
{
}

/// An open orders creation with fewer than seven slots is refused with
/// `NotEnoughAccounts`, and the context is left as it was.
pub proof fn short_creation_refused(before: Context, after: Context, r: Result<(), ErrorCode>)
    requires
        init_outcome(before, after, r),
        before.accounts@.len() < 7,
    ensures
        r == Err::<(), ErrorCode>(ErrorCode::NotEnoughAccounts),
        after == before,
{
}

/// Under an enforced policy, a settlement with enough slots succeeds exactly
/// when its referral slot holds the configured address, and is otherwise
/// refused with `InvalidReferral`.
pub proof fn enforced_referral(referral: Seq<u8>, before: Context, after: Context, r: Result<(), ErrorCode>)
    requires
        referral_outcome(referral, true, before, after, r),
        before.accounts@.len() > REFERRAL_SLOT,
    ensures
        before.accounts@[REFERRAL_SLOT as int].key@ == referral <==> r is Ok,
        before.accounts@[REFERRAL_SLOT as int].key@ != referral
            <==> r == Err::<(), ErrorCode>(ErrorCode::InvalidReferral),
{
}

} // verus!
