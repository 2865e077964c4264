use crate::address::Address;
use crate::error::ErrorCode;
use anchor_lang::solana_program::pubkey::Pubkey;
use vstd::prelude::*;

verus! {

/// The address that the seeds give under the program, or `None` where the
/// seeds are refused or hash to a point on the curve.
pub uninterp spec fn program_address(seeds: Seq<Seq<u8>>, program: Seq<u8>) -> Option<Seq<u8>>;

/// Whether the bytes decode to a point on the ed25519 curve.
pub uninterp spec fn curve_point(key: Seq<u8>) -> bool;

/// At most 16 seeds, each of at most 32 bytes.
pub open spec fn seeds_fit(seeds: Seq<Seq<u8>>) -> bool {
    seeds.len() <= 16 && forall|i: int| 0 <= i < seeds.len() ==> #[trigger] seeds[i].len() <= 32
}

pub open spec fn seeds_view(seeds: Seq<Vec<u8>>) -> Seq<Seq<u8>> {
    seeds.map_values(|s: Vec<u8>| s@)
}

pub open spec fn with_bump(seeds: Seq<Seq<u8>>, bump: u8) -> Seq<Seq<u8>> {
    seeds.push(seq![bump])
}

/// `bump` is the largest bump, searched from 255 down to 1, for which the
/// seeds give an address.
pub open spec fn canonical_bump(seeds: Seq<Seq<u8>>, program: Seq<u8>, bump: u8) -> bool {
    &&& 1 <= bump
    &&& program_address(with_bump(seeds, bump), program) is Some
    &&& forall|c: u8| bump < c ==> (#[trigger] program_address(with_bump(seeds, c), program)) is None
}

/// `address` and `bump` are what derivation gives for the seeds under the
/// program: the canonical bump, its address, and that address off the curve.
pub open spec fn derived(program: Seq<u8>, seeds: Seq<Seq<u8>>, address: Seq<u8>, bump: u8) -> bool {
    &&& canonical_bump(seeds, program, bump)
    &&& program_address(with_bump(seeds, bump), program) == Some(address)
    &&& !curve_point(address)
}

/// The ASCII text `open-orders`.
pub open spec fn open_orders_tag() -> Seq<u8> {
    seq![111u8, 112, 101, 110, 45, 111, 114, 100, 101, 114, 115]
}

/// The ASCII text `open-orders-init`.
pub open spec fn open_orders_init_tag() -> Seq<u8> {
    open_orders_tag() + seq![45u8, 105, 110, 105, 116]
}

/// Seeds, without the bump, of a caller's open orders account on a market.
pub open spec fn open_orders_seeds(market: Seq<u8>, authority: Seq<u8>) -> Seq<Seq<u8>> {
    seq![open_orders_tag(), market, authority]
}

/// Seeds, without the bump, of the authority that signs the creation of open
/// orders accounts on a market.
pub open spec fn open_orders_init_seeds(market: Seq<u8>) -> Seq<Seq<u8>> {
    seq![open_orders_init_tag(), market]
}

/// Relies on `Pubkey::create_program_address`: more than 16 seeds, or a seed
/// longer than 32 bytes, is refused; an address is never a curve point; and
/// the result depends on the seeds and the program alone.
#[verifier::external_body]
pub(crate) fn create_program_address(seeds: &Vec<Vec<u8>>, program: &Address) -> (r: Option<Address>)
    ensures
        r matches Some(a) ==> program_address(seeds_view(seeds@), program@) == Some(a@),
        r is None ==> program_address(seeds_view(seeds@), program@) is None,
        r matches Some(a) ==> !curve_point(a@),
        !seeds_fit(seeds_view(seeds@)) ==> r is None,
{
    let refs: Vec<&[u8]> = seeds.iter().map(|s| s.as_slice()).collect();
    let program_id = Pubkey::new_from_array(program.bytes);
    Pubkey::create_program_address(&refs, &program_id).ok().map(|k| Address { bytes: k.to_bytes() })
}

/// Relies on `Pubkey::try_find_program_address`: it tries the bumps from 255
/// down to 1 with `create_program_address` and returns the first address found.
#[verifier::external_body]
pub(crate) fn find_program_address(seeds: &Vec<Vec<u8>>, program: &Address) -> (r: Option<(Address, u8)>)
    ensures
        r matches Some((a, b)) ==> canonical_bump(seeds_view(seeds@), program@, b)
            && program_address(with_bump(seeds_view(seeds@), b), program@) == Some(a@),
        r matches Some((a, b)) ==> !curve_point(a@),
        r is None ==> forall|c: u8| 1 <= c ==> (#[trigger] program_address(with_bump(seeds_view(seeds@), c), program@)) is None,
{
    let refs: Vec<&[u8]> = seeds.iter().map(|s| s.as_slice()).collect();
    let program_id = Pubkey::new_from_array(program.bytes);
    Pubkey::try_find_program_address(&refs, &program_id).map(|(k, b)| (Address { bytes: k.to_bytes() }, b))
}

} // verus!

verus! {

fn open_orders_tag_bytes() -> (r: Vec<u8>)
    ensures
        r@ == open_orders_tag(),
{
    let r: Vec<u8> = vec![111u8, 112, 101, 110, 45, 111, 114, 100, 101, 114, 115];
    assert(r@ =~= open_orders_tag());
    r
}

fn open_orders_init_tag_bytes() -> (r: Vec<u8>)
    ensures
        r@ == open_orders_init_tag(),
{
    let r: Vec<u8> = vec![111u8, 112, 101, 110, 45, 111, 114, 100, 101, 114, 115, 45, 105, 110, 105, 116];
    assert(r@ =~= open_orders_init_tag());
    r
}

/// Seeds of a caller's open orders account, without the bump.
pub(crate) fn open_orders_prefix(market: &Address, authority: &Address) -> (r: Vec<Vec<u8>>)
    ensures
        seeds_view(r@) == open_orders_seeds(market@, authority@),
{
    let mut r: Vec<Vec<u8>> = Vec::new();
    r.push(open_orders_tag_bytes());
    r.push(market.to_vec());
    r.push(authority.to_vec());
    assert(seeds_view(r@) =~= open_orders_seeds(market@, authority@));
    r
}

/// Seeds of the open orders init authority, without the bump.
pub(crate) fn open_orders_init_prefix(market: &Address) -> (r: Vec<Vec<u8>>)
    ensures
        seeds_view(r@) == open_orders_init_seeds(market@),
{
    let mut r: Vec<Vec<u8>> = Vec::new();
    r.push(open_orders_init_tag_bytes());
    r.push(market.to_vec());
    assert(seeds_view(r@) =~= open_orders_init_seeds(market@));
    r
}

fn copy_seeds(seeds: &Vec<Vec<u8>>) -> (r: Vec<Vec<u8>>)
    ensures
        seeds_view(r@) == seeds_view(seeds@),
{
    let mut r: Vec<Vec<u8>> = Vec::new();
    let mut i: usize = 0;
    while i < seeds.len()
        invariant
            0 <= i <= seeds@.len(),
            seeds_view(r@) =~= seeds_view(seeds@.subrange(0, i as int)),
        decreases seeds@.len() - i,
    {
        let s: Vec<u8> = seeds[i].clone();
        assert(s@ =~= seeds@[i as int]@);
        let ghost before = r@;
        r.push(s);
        proof {
            assert(r@ == before.push(s));
            assert(seeds_view(r@) =~= seeds_view(before).push(s@));
            assert(seeds@.subrange(0, i + 1) =~= seeds@.subrange(0, i as int).push(seeds@[i as int]));
            assert(seeds_view(seeds@.subrange(0, i + 1)) =~= seeds_view(seeds@.subrange(0, i as int)).push(seeds@[i as int]@));
        }
        i = i + 1;
    }
    assert(seeds@.subrange(0, seeds@.len() as int) =~= seeds@);
    r
}

fn push_bump(seeds: &mut Vec<Vec<u8>>, bump: u8)
    ensures
        seeds_view(final(seeds)@) == with_bump(seeds_view(old(seeds)@), bump),
{
    let mut b: Vec<u8> = Vec::new();
    b.push(bump);
    seeds.push(b);
    assert(b@ =~= seq![bump]);
    assert(seeds_view(seeds@) =~= with_bump(seeds_view(old(seeds)@), bump));
}

/// Derives the address of the seeds under the program with the canonical bump:
/// the largest bump from 255 down to 1 that gives an address off the curve.
pub fn derive_address(program: &Address, seeds: &Vec<Vec<u8>>) -> (r: Result<(Address, u8), ErrorCode>)
    ensures
        r matches Ok((a, b)) ==> derived(program@, seeds_view(seeds@), a@, b),
        r is Err <==> forall|c: u8| 1 <= c ==> (#[trigger] program_address(with_bump(seeds_view(seeds@), c), program@)) is None,
        r matches Err(e) ==> e == ErrorCode::NoViableBump,
{
    match find_program_address(seeds, program) {
        Some(found) => Ok(found),
        None => Err(ErrorCode::NoViableBump),
    }
}

/// Whether `address` is the address that the seeds and `bump` give.
pub fn verify_bump(program: &Address, seeds: &Vec<Vec<u8>>, bump: u8, address: &Address) -> (r: bool)
    ensures
        r == (program_address(with_bump(seeds_view(seeds@), bump), program@) == Some(address@)),
        r ==> !curve_point(address@),
{
    let mut full = copy_seeds(seeds);
    push_bump(&mut full, bump);
    match create_program_address(&full, program) {
        Some(a) => a.same_as(address),
        None => false,
    }
}

/// Seeds, with the given bump, of a caller's open orders account on a market.
pub fn open_orders_authority_with_bump(market: &Address, authority: &Address, bump: u8) -> (r: Vec<Vec<u8>>)
    ensures
        seeds_view(r@) == with_bump(open_orders_seeds(market@, authority@), bump),
{
    let mut r = open_orders_prefix(market, authority);
    push_bump(&mut r, bump);
    r
}

/// Seeds, with the canonical bump, of a caller's open orders account on a market.
pub fn open_orders_authority(program: &Address, market: &Address, authority: &Address) -> (r: Result<Vec<Vec<u8>>, ErrorCode>)
    ensures
        r matches Ok(s) ==> exists|b: u8, a: Seq<u8>| seeds_view(s@) == with_bump(open_orders_seeds(market@, authority@), b)
            && derived(program@, open_orders_seeds(market@, authority@), a, b),
        r is Err <==> forall|c: u8| 1 <= c ==> (#[trigger] program_address(with_bump(open_orders_seeds(market@, authority@), c), program@)) is None,
        r matches Err(e) ==> e == ErrorCode::NoViableBump,
{
    let prefix = open_orders_prefix(market, authority);
    let (address, bump) = derive_address(program, &prefix)?;
    let r = open_orders_authority_with_bump(market, authority, bump);
    assert(derived(program@, open_orders_seeds(market@, authority@), address@, bump));
    Ok(r)
}

/// Seeds, with the given bump, of the open orders init authority of a market.
pub fn open_orders_init_authority_with_bump(market: &Address, bump: u8) -> (r: Vec<Vec<u8>>)
    ensures
        seeds_view(r@) == with_bump(open_orders_init_seeds(market@), bump),
{
    let mut r = open_orders_init_prefix(market);
    push_bump(&mut r, bump);
    r
}

/// Seeds, with the canonical bump, of the open orders init authority of a market.
pub fn open_orders_init_authority(program: &Address, market: &Address) -> (r: Result<Vec<Vec<u8>>, ErrorCode>)
    ensures
        r matches Ok(s) ==> exists|b: u8, a: Seq<u8>| seeds_view(s@) == with_bump(open_orders_init_seeds(market@), b)
            && derived(program@, open_orders_init_seeds(market@), a, b),
        r is Err <==> forall|c: u8| 1 <= c ==> (#[trigger] program_address(with_bump(open_orders_init_seeds(market@), c), program@)) is None,
        r matches Err(e) ==> e == ErrorCode::NoViableBump,
{
    let prefix = open_orders_init_prefix(market);
    let (address, bump) = derive_address(program, &prefix)?;
    let r = open_orders_init_authority_with_bump(market, bump);
    assert(derived(program@, open_orders_init_seeds(market@), address@, bump));
    Ok(r)
}

} // verus!
