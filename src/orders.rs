use vstd::prelude::*;

verus! {

/// The order id that, in a cancel request, stands for every resting order of
/// the asset.
pub const ALL_ORDERS_OID: u64 = 0;

/// A request to cancel one resting order, named by asset and order id.
#[derive(Debug, Clone)]
pub struct CancelRequest {
    pub asset: String,
    pub oid: u64,
}

/// How long a limit order rests on the book.
#[derive(Debug, Clone, Copy, PartialEq, Eq, Structural)]
pub enum TimeInForce {
    /// Add-liquidity-only: rejected if it would match at once.
    Alo,
    /// Immediate-or-cancel: what does not match at once is cancelled.
    Ioc,
    /// Good-till-canceled: rests until filled or cancelled.
    Gtc,
}

/// The venue's code for each time-in-force.
pub open spec fn tif_code(t: TimeInForce) -> Seq<char> {
    match t {
        TimeInForce::Alo => "Alo"@,
        TimeInForce::Ioc => "Ioc"@,
        TimeInForce::Gtc => "Gtc"@,
    }
}

impl TimeInForce {
    /// The code that the venue expects for this time-in-force.
    pub fn venue_code(&self) -> (r: &'static str)
        ensures
            r@ == tif_code(*self),
    {
        match self {
            TimeInForce::Alo => "Alo",
            TimeInForce::Ioc => "Ioc",
            TimeInForce::Gtc => "Gtc",
        }
    }
}

/// Everything about a limit order but its size and price: what the caller
/// chose and the fixed placement policy.
#[derive(Debug, Clone)]
pub struct OrderTerms {
    pub asset: String,
    pub is_buy: bool,
    pub reduce_only: bool,
    pub tif: TimeInForce,
}

/// The terms under which an order is placed. Every order is a
/// good-till-canceled limit order, whatever the caller asks for.
pub fn order_terms(asset: String, is_buy: bool, reduce_only: bool) -> (r: OrderTerms)
    ensures
        r.asset@ == asset@,
        r.is_buy == is_buy,
        r.reduce_only == reduce_only,
        r.tif == TimeInForce::Gtc,
{
    OrderTerms { asset, is_buy, reduce_only, tif: TimeInForce::Gtc }
}

/// The venue's side code for a bid.
pub open spec fn buy_side_code() -> Seq<char> {
    "B"@
}

/// Reads the side of a resting order from the venue's code: `B` is a buy,
/// and every other code, `A` or one not recognised, is read as a sell.
pub fn is_buy_side(side: &str) -> (r: bool)
    ensures
        r == (side@ == buy_side_code()),
{
    proof {
        reveal_strlit("B");
    }
    let n = side.unicode_len();
    if n == 1 {
        let c = side.get_char(0);
        proof {
            if c == 'B' {
                assert(side@ =~= buy_side_code());
            } else {
                assert(side@[0] != buy_side_code()[0]);
            }
        }
        c == 'B'
    } else {
        false
    }
}

/// Whether `reqs` cancels everything for each asset of `assets`, in the same
/// order and with nothing else.
pub open spec fn cancels_all_of(reqs: Seq<CancelRequest>, assets: Seq<String>) -> bool {
    &&& reqs.len() == assets.len()
    &&& forall|i: int|
        0 <= i < reqs.len() ==> (#[trigger] reqs[i]).asset@ == assets[i]@ && reqs[i].oid
            == ALL_ORDERS_OID
}

/// The batch of a bulk cancel. For one asset, a single request that clears
/// that asset. Without one, a request for each asset that the session knows,
/// in the order given; an empty table gives an empty batch.
pub fn bulk_cancel_requests(asset: Option<String>, known_assets: &Vec<String>) -> (r: Vec<
    CancelRequest,
>)
    ensures
        asset is Some ==> r@.len() == 1 && r@[0].asset@ == asset->Some_0@ && r@[0].oid
            == ALL_ORDERS_OID,
        asset is None ==> cancels_all_of(r@, known_assets@),
{
    match asset {
        Some(a) => {
            let mut batch: Vec<CancelRequest> = Vec::new();
            batch.push(CancelRequest { asset: a, oid: ALL_ORDERS_OID });
            batch
        },
        None => {
            let mut batch: Vec<CancelRequest> = Vec::new();
            let mut i: usize = 0;
            while i < known_assets.len()
                invariant
                    i <= known_assets@.len(),
                    cancels_all_of(batch@, known_assets@.subrange(0, i as int)),
                decreases known_assets@.len() - i,
            {
                let name = known_assets[i].clone();
                batch.push(CancelRequest { asset: name, oid: ALL_ORDERS_OID });
                i = i + 1;
            }
            assert(known_assets@.subrange(0, i as int) =~= known_assets@);
            batch
        },
    }
}

/// A bulk cancel over a table of distinct assets names each asset once.
pub proof fn lemma_bulk_cancel_distinct(reqs: Seq<CancelRequest>, assets: Seq<String>)
    requires
        cancels_all_of(reqs, assets),
        forall|i: int, j: int|
            0 <= i < assets.len() && 0 <= j < assets.len() && i != j ==> (#[trigger] assets[i])@
                != (#[trigger] assets[j])@,
    ensures
        forall|i: int, j: int|
            0 <= i < reqs.len() && 0 <= j < reqs.len() && i != j ==> (#[trigger] reqs[i]).asset@
                != (#[trigger] reqs[j]).asset@,
{
    assert forall|i: int, j: int|
        0 <= i < reqs.len() && 0 <= j < reqs.len() && i != j implies (#[trigger] reqs[i]).asset@
        != (#[trigger] reqs[j]).asset@ by {
        assert(assets[i]@ != assets[j]@);
    }
}

} // verus!
