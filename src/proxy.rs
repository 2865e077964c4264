use crate::address::{AccountHandle, Address};
use crate::context::{decoded_request, unpack_request, Context, Request};
use crate::error::ErrorCode;
use crate::middleware::MarketMiddleware;
use vstd::prelude::*;

verus! {

/// What the proxy hands on to the venue: the instruction bytes as they came,
/// the account slots as the middlewares left them, and the seed sets under
/// which the proxy signs.
pub struct Forward {
    pub accounts: Vec<AccountHandle>,
    pub data: Vec<u8>,
    pub seeds: Vec<Vec<Vec<u8>>>,
    /// The request creates an open orders account, which the host allocates
    /// before it forwards.
    pub creates_open_orders: bool,
}

/// `c` is the context that a request starts from.
pub open spec fn fresh(c: Context, program_id: Address, accounts: Seq<AccountHandle>, data: Seq<u8>) -> bool {
    &&& c.program_id == program_id
    &&& c.accounts@ == accounts
    &&& c.data@ == data
    &&& c.seeds@.len() == 0
}

/// `ctxs` records the first `n` hooks of the chain for the request, each of
/// which accepted: hook `i` took `ctxs[i]` to `ctxs[i + 1]`.
pub open spec fn accepted_run<M: MarketMiddleware>(chain: Seq<M>, request: Request, ctxs: Seq<Context>, n: int) -> bool {
    &&& 0 <= n <= chain.len()
    &&& ctxs.len() == n + 1
    &&& forall|i: int| 0 <= i < n ==> #[trigger] chain[i].hook(request, ctxs[i], ctxs[i + 1], Ok(()))
}

fn run_one<M: MarketMiddleware>(mw: &M, request: &Request, ctx: &mut Context) -> (r: Result<(), ErrorCode>)
    ensures
        mw.hook(*request, *old(ctx), *final(ctx), r),
{
    match request {
        Request::InitOpenOrders => mw.init_open_orders(ctx),
        Request::NewOrderV3(ix) => mw.new_order_v3(ctx, ix),
        Request::CancelOrderV2(ix) => mw.cancel_order_v2(ctx, ix),
        Request::CancelOrderByClientIdV2(id) => mw.cancel_order_by_client_id_v2(ctx, *id),
        Request::SettleFunds => mw.settle_funds(ctx),
        Request::CloseOpenOrders => mw.close_open_orders(ctx),
        Request::Unrecognized => mw.fallback(ctx),
    }
}

/// Decodes the request, runs the hook of its kind on each middleware of the
/// chain in order, each on the context that the one before left, and stops at
/// the first error, which it returns. When all accept, returns what is
/// forwarded to the venue: the bytes as they came, and the accounts and seed
/// sets of the last context.
pub fn process<M: MarketMiddleware>(
    chain: &Vec<M>,
    program_id: Address,
    accounts: Vec<AccountHandle>,
    data: Vec<u8>,
) -> (r: Result<Forward, ErrorCode>)
    ensures
        r matches Ok(f) ==> f.data@ == data@,
        r matches Ok(f) ==> f.creates_open_orders == (decoded_request(data@) is InitOpenOrders),
        r matches Ok(f) ==> exists|ctxs: Seq<Context>|
            #[trigger] accepted_run(chain@, decoded_request(data@), ctxs, chain@.len() as int)
            && fresh(ctxs[0], program_id, accounts@, data@)
            && f.accounts@ == ctxs.last().accounts@
            && f.seeds@ == ctxs.last().seeds@,
        r matches Err(e) ==> exists|ctxs: Seq<Context>, i: int|
            #[trigger] accepted_run(chain@, decoded_request(data@), ctxs.drop_last(), i)
            && i < chain@.len()
            && ctxs.len() == i + 2
            && fresh(ctxs[0], program_id, accounts@, data@)
            && chain@[i].hook(decoded_request(data@), ctxs[i], ctxs[i + 1], Err(e)),
        chain@.len() == 0 ==> (r matches Ok(f) && f.accounts@ == accounts@ && f.seeds@.len() == 0),
{
    let request = unpack_request(&data);
    let ghost accounts0 = accounts@;
    let mut ctx = Context::new(program_id, accounts, data.clone());
    let ghost mut trace: Seq<Context> = seq![ctx];
    let mut i: usize = 0;
    while i < chain.len()
        invariant
            0 <= i <= chain@.len(),
            request == decoded_request(data@),
            accepted_run(chain@, request, trace, i as int),
            trace.last() == ctx,
            fresh(trace[0], program_id, accounts0, data@),
            accounts0 == accounts@,
            i == 0 ==> ctx.accounts@ == accounts0 && ctx.seeds@.len() == 0,
        decreases chain@.len() - i,
    {
        let ghost before = ctx;
        let res = run_one(&chain[i], &request, &mut ctx);
        match res {
            Ok(unit) => {
                assert(res == Ok::<(), ErrorCode>(unit));
            },
            Err(e) => {
                proof {
                    let t = trace.push(ctx);
                    assert(t.drop_last() =~= trace);
                    assert(t[i as int] == before && t[i + 1] == ctx && t[0] == trace[0]);
                    let k: int = i as int;
                    assert(accepted_run(chain@, decoded_request(data@), t.drop_last(), k)
                        && k < chain@.len()
                        && t.len() == k + 2
                        && fresh(t[0], program_id, accounts0, data@)
                        && chain@[k].hook(decoded_request(data@), t[k], t[k + 1], Err(e)));
                }
                return Err(e);
            },
        }
        proof {
            let t = trace.push(ctx);
            assert forall|j: int| 0 <= j < i + 1 implies #[trigger] chain@[j].hook(request, t[j], t[j + 1], Ok(())) by {
                if j < i {
                    assert(t[j] == trace[j] && t[j + 1] == trace[j + 1]);
                    assert(chain@[j].hook(request, trace[j], trace[j + 1], Ok(())));
                } else {
                    assert(t[j] == before && t[j + 1] == ctx);
                }
            }
            trace = t;
            assert(accepted_run(chain@, request, trace, i + 1));
        }
        i = i + 1;
    }
    let creates_open_orders = match request {
        Request::InitOpenOrders => true,
        _ => false,
    };
    Ok(Forward { accounts: ctx.accounts, data, seeds: ctx.seeds, creates_open_orders })
}

} // verus!
