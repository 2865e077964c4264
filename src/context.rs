use crate::address::{AccountHandle, Address};
use crate::pda::seeds_view;
use serum_dex::instruction::{CancelOrderInstructionV2, MarketInstruction, NewOrderInstructionV3};
use vstd::prelude::*;

verus! {

#[verifier::external_type_specification]
#[verifier::external_body]
pub struct ExNewOrderInstructionV3(NewOrderInstructionV3);

#[verifier::external_type_specification]
#[verifier::external_body]
pub struct ExCancelOrderInstructionV2(CancelOrderInstructionV2);

/// Per request context, shared by the middlewares of a chain.
pub struct Context {
    /// The proxy's own program, under which addresses are derived.
    pub program_id: Address,
    /// The account slots of the request, in the order the venue expects.
    pub accounts: Vec<AccountHandle>,
    /// The instruction bytes, forwarded unchanged.
    pub data: Vec<u8>,
    /// Seed sets, each with its bump, for the addresses the proxy signs for.
    pub seeds: Vec<Vec<Vec<u8>>>,
}

impl Context {
    pub fn new(program_id: Address, accounts: Vec<AccountHandle>, data: Vec<u8>) -> (r: Context)
        ensures
            r.program_id == program_id,
            r.accounts@ == accounts@,
            r.data@ == data@,
            r.seeds@.len() == 0,
    {
        Context { program_id, accounts, data, seeds: Vec::new() }
    }

    /// The seed sets as byte sequences.
    pub open spec fn seed_sets(&self) -> Seq<Seq<Seq<u8>>> {
        self.seeds@.map_values(|s: Vec<Vec<u8>>| seeds_view(s@))
    }
}

/// A venue instruction, as far as the proxy tells kinds apart.
pub enum Request {
    InitOpenOrders,
    NewOrderV3(NewOrderInstructionV3),
    CancelOrderV2(CancelOrderInstructionV2),
    CancelOrderByClientIdV2(u64),
    SettleFunds,
    CloseOpenOrders,
    /// Any other instruction, or bytes that do not decode.
    Unrecognized,
}

/// The request that the venue's decoder reads from the bytes.
pub uninterp spec fn decoded_request(data: Seq<u8>) -> Request;

/// A version byte of zero, then the kind as a little-endian `u32`, then nothing.
pub open spec fn bare_instruction(data: Seq<u8>, kind: u8) -> bool {
    data =~= seq![0u8, kind, 0, 0, 0]
}

/// A version byte of zero and the kind as a little-endian `u32`, before `len` bytes of payload.
pub open spec fn framed_instruction(data: Seq<u8>, kind: u8, len: nat) -> bool {
    &&& data.len() == 5 + len
    &&& data.subrange(0, 5) =~= seq![0u8, kind, 0, 0, 0]
}

/// Relies on `MarketInstruction::unpack` of the venue: a version byte of
/// zero, a little-endian `u32` kind, and a payload whose length the kind fixes.
#[verifier::external_body]
pub(crate) fn unpack_request(data: &Vec<u8>) -> (r: Request)
    ensures
        r == decoded_request(data@),
        r is InitOpenOrders <==> bare_instruction(data@, 15),
        r is SettleFunds <==> bare_instruction(data@, 5),
        r is CloseOpenOrders <==> bare_instruction(data@, 14),
        r is CancelOrderByClientIdV2 <==> framed_instruction(data@, 12, 8),
        r is NewOrderV3 ==> framed_instruction(data@, 10, 46),
        r is CancelOrderV2 ==> framed_instruction(data@, 11, 20),
{
    match MarketInstruction::unpack(data.as_slice()) {
        Some(MarketInstruction::InitOpenOrders) => Request::InitOpenOrders,
        Some(MarketInstruction::NewOrderV3(ix)) => Request::NewOrderV3(ix),
        Some(MarketInstruction::CancelOrderV2(ix)) => Request::CancelOrderV2(ix),
        Some(MarketInstruction::CancelOrderByClientIdV2(id)) => Request::CancelOrderByClientIdV2(id),
        Some(MarketInstruction::SettleFunds) => Request::SettleFunds,
        Some(MarketInstruction::CloseOpenOrders) => Request::CloseOpenOrders,
        _ => Request::Unrecognized,
    }
}

} // verus!
