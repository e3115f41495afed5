use vstd::prelude::*;
use crate::numeral::decimal_of;
use crate::numeral::u64_to_decimal;
use crate::stargate::binary_as_slice;
use crate::stargate::binary_bytes;
use crate::stargate::decode_estimate_request;
use crate::stargate::decode_pool_request;
use crate::stargate::decode_spot_request;
use crate::stargate::decode_twap_request;
use crate::stargate::estimate_request_of;
use crate::stargate::pool_request_of;
use crate::stargate::spot_request_of;
use crate::stargate::twap_request_of;

verus! {

/// Model of a composite price key.
pub ghost struct PriceKeyModel {
    pub pool_id: u64,
    pub denom_in: Seq<char>,
    pub denom_out: Seq<char>,
}

/// The composite key under which spot-price and time-weighted-price fixtures
/// are stored: a pool id, an input denom and an output denom. Built from a
/// request's semantic fields only, never from its encoding.
#[derive(Clone, Debug, PartialEq, Eq)]
pub struct PriceKey {
    pub pool_id: u64,
    pub denom_in: String,
    pub denom_out: String,
}

impl View for PriceKey {
    type V = PriceKeyModel;

    open spec fn view(&self) -> PriceKeyModel {
        PriceKeyModel {
            pool_id: self.pool_id,
            denom_in: self.denom_in@,
            denom_out: self.denom_out@,
        }
    }
}

/// One hop of a multi-hop swap route: the pool to swap in and the denom that
/// leaves it.
#[derive(Clone, Debug, PartialEq, Eq)]
pub struct SwapStep {
    pub pool_id: u64,
    pub token_out_denom: String,
}

impl View for SwapStep {
    type V = (u64, Seq<char>);

    open spec fn view(&self) -> (u64, Seq<char>) {
        (self.pool_id, self.token_out_denom@)
    }
}

impl DeepView for SwapStep {
    type V = (u64, Seq<char>);

    open spec fn deep_view(&self) -> (u64, Seq<char>) {
        self@
    }
}

/// Model of an opaque protobuf payload.
pub ghost struct AnyPayloadModel {
    pub type_url: Seq<char>,
    pub value: Seq<u8>,
}

/// An opaque protobuf payload: a type URL and the encoded bytes. The pool
/// snapshot inside a pool-lookup fixture is carried this way, exactly as the
/// oracle service would hand it over.
#[derive(Clone, Debug, PartialEq, Eq)]
pub struct AnyPayload {
    pub type_url: String,
    pub value: Vec<u8>,
}

impl View for AnyPayload {
    type V = AnyPayloadModel;

    open spec fn view(&self) -> AnyPayloadModel {
        AnyPayloadModel { type_url: self.type_url@, value: self.value@ }
    }
}

/// Model of a pool-lookup fixture.
pub ghost struct PoolResponseModel {
    pub pool: Option<AnyPayloadModel>,
}

/// A canned pool-lookup response: the pool snapshot, if one is set.
#[derive(Clone, Debug, PartialEq, Eq)]
pub struct PoolResponse {
    pub pool: Option<AnyPayload>,
}

impl View for PoolResponse {
    type V = PoolResponseModel;

    open spec fn view(&self) -> PoolResponseModel {
        PoolResponseModel {
            pool: match self.pool {
                Some(p) => Some(p@),
                None => None,
            },
        }
    }
}

/// Model of a spot-price fixture.
pub ghost struct SpotPriceResponseModel {
    pub spot_price: Seq<char>,
}

/// A canned spot-price response.
#[derive(Clone, Debug, PartialEq, Eq)]
pub struct SpotPriceResponse {
    pub spot_price: String,
}

impl View for SpotPriceResponse {
    type V = SpotPriceResponseModel;

    open spec fn view(&self) -> SpotPriceResponseModel {
        SpotPriceResponseModel { spot_price: self.spot_price@ }
    }
}

/// Model of a time-weighted-average-price fixture.
pub ghost struct TwapResponseModel {
    pub arithmetic_twap: Seq<char>,
}

/// A canned time-weighted-average-price response.
#[derive(Clone, Debug, PartialEq, Eq)]
pub struct TwapResponse {
    pub arithmetic_twap: String,
}

impl View for TwapResponse {
    type V = TwapResponseModel;

    open spec fn view(&self) -> TwapResponseModel {
        TwapResponseModel { arithmetic_twap: self.arithmetic_twap@ }
    }
}

/// Model of a swap-estimate fixture.
pub ghost struct SwapEstimateResponseModel {
    pub token_out_amount: Seq<char>,
}

/// A canned swap-estimate response.
#[derive(Clone, Debug, PartialEq, Eq)]
pub struct SwapEstimateResponse {
    pub token_out_amount: String,
}

impl View for SwapEstimateResponse {
    type V = SwapEstimateResponseModel;

    open spec fn view(&self) -> SwapEstimateResponseModel {
        SwapEstimateResponseModel { token_out_amount: self.token_out_amount@ }
    }
}

/// The mapping an association sequence denotes: later entries overwrite
/// earlier ones, as repeated registration of the same key would.
pub open spec fn map_of<K, V>(s: Seq<(K, V)>) -> Map<K, V>
    decreases s.len(),
{
    if s.len() == 0 {
        Map::empty()
    } else {
        map_of(s.drop_last()).insert(s.last().0, s.last().1)
    }
}

/// The entry with no later entry of the same key is the one the denoted
/// mapping holds for that key.
pub proof fn lemma_map_of_match<K, V>(s: Seq<(K, V)>, i: int)
    requires
        0 <= i < s.len(),
        forall|j: int| i < j < s.len() ==> s[j].0 != s[i].0,
    ensures
        map_of(s).contains_key(s[i].0),
        map_of(s)[s[i].0] == s[i].1,
    decreases s.len(),
{
    if i < s.len() - 1 {
        assert(forall|j: int| i < j < s.drop_last().len() ==> s.drop_last()[j].0 != s.drop_last()[i].0);
        lemma_map_of_match(s.drop_last(), i);
    }
}

/// A key no entry carries is absent from the denoted mapping.
pub proof fn lemma_map_of_no_match<K, V>(s: Seq<(K, V)>, k: K)
    requires
        forall|j: int| 0 <= j < s.len() ==> s[j].0 != k,
    ensures
        !map_of(s).contains_key(k),
    decreases s.len(),
{
    if s.len() > 0 {
        lemma_map_of_no_match(s.drop_last(), k);
    }
}

/// The composite key a spot-price or time-weighted-price request maps to.
/// Both request shapes carry the same three semantic fields under different
/// names; both are normalized to this one key shape.
pub open spec fn price_key_of(pool_id: u64, denom_in: Seq<char>, denom_out: Seq<char>) -> PriceKeyModel {
    PriceKeyModel { pool_id, denom_in, denom_out }
}

/// The key fragment one swap hop contributes: the pool id in decimal, a dot,
/// the output denom.
pub open spec fn swap_step_key(pool_id: u64, denom: Seq<char>) -> Seq<char> {
    decimal_of(pool_id as nat) + "."@ + denom
}

/// The composite key of a multi-hop route: the hops' fragments in request
/// order, joined by single commas with no trailing separator.
pub open spec fn swap_key_of(routes: Seq<(u64, Seq<char>)>) -> Seq<char>
    decreases routes.len(),
{
    if routes.len() == 0 {
        Seq::empty()
    } else if routes.len() == 1 {
        swap_step_key(routes[0].0, routes[0].1)
    } else {
        swap_key_of(routes.drop_last()) + ","@ + swap_step_key(routes.last().0, routes.last().1)
    }
}

/// Model of the querier: the four fixture mappings.
pub ghost struct QuerierModel {
    pub pools: Map<u64, PoolResponseModel>,
    pub spot_prices: Map<PriceKeyModel, SpotPriceResponseModel>,
    pub twap_prices: Map<PriceKeyModel, TwapResponseModel>,
    pub estimate_swaps: Map<Seq<char>, SwapEstimateResponseModel>,
}

/// A simulated price-oracle query endpoint: four independent fixture stores,
/// each keyed by a composite key built from a request's semantic fields.
/// Fixtures registered later under an already-used key replace the earlier
/// ones.
pub struct OsmosisQuerier {
    pub pools: Vec<(u64, PoolResponse)>,
    pub spot_prices: Vec<(PriceKey, SpotPriceResponse)>,
    pub twap_prices: Vec<(PriceKey, TwapResponse)>,
    pub estimate_swaps: Vec<(String, SwapEstimateResponse)>,
}

impl View for OsmosisQuerier {
    type V = QuerierModel;

    open spec fn view(&self) -> QuerierModel {
        QuerierModel {
            pools: map_of(self.pools@.map_values(|p: (u64, PoolResponse)| (p.0, p.1@))),
            spot_prices: map_of(self.spot_prices@.map_values(|p: (PriceKey, SpotPriceResponse)| (p.0@, p.1@))),
            twap_prices: map_of(self.twap_prices@.map_values(|p: (PriceKey, TwapResponse)| (p.0@, p.1@))),
            estimate_swaps: map_of(self.estimate_swaps@.map_values(|p: (String, SwapEstimateResponse)| (p.0@, p.1@))),
        }
    }
}

/// The key a failed lookup reports, so the caller sees exactly what was
/// searched for.
#[derive(Clone, Debug, PartialEq, Eq)]
pub enum LookupKey {
    Pool(u64),
    Price(PriceKey),
    SwapRoutes(String),
}

/// Model of a reported lookup key.
pub ghost enum LookupKeyModel {
    Pool(u64),
    Price(PriceKeyModel),
    SwapRoutes(Seq<char>),
}

impl View for LookupKey {
    type V = LookupKeyModel;

    open spec fn view(&self) -> LookupKeyModel {
        match self {
            LookupKey::Pool(id) => LookupKeyModel::Pool(*id),
            LookupKey::Price(k) => LookupKeyModel::Price(k@),
            LookupKey::SwapRoutes(s) => LookupKeyModel::SwapRoutes(s@),
        }
    }
}

/// A stored fixture, as the route that found it returns it.
#[derive(Clone, Debug, PartialEq, Eq)]
pub enum ResponsePayload {
    Pool(PoolResponse),
    Spot(SpotPriceResponse),
    Twap(TwapResponse),
    SwapEstimate(SwapEstimateResponse),
}

/// Model of a returned fixture.
pub ghost enum ResponsePayloadModel {
    Pool(PoolResponseModel),
    Spot(SpotPriceResponseModel),
    Twap(TwapResponseModel),
    SwapEstimate(SwapEstimateResponseModel),
}

impl View for ResponsePayload {
    type V = ResponsePayloadModel;

    open spec fn view(&self) -> ResponsePayloadModel {
        match self {
            ResponsePayload::Pool(p) => ResponsePayloadModel::Pool(p@),
            ResponsePayload::Spot(p) => ResponsePayloadModel::Spot(p@),
            ResponsePayload::Twap(p) => ResponsePayloadModel::Twap(p@),
            ResponsePayload::SwapEstimate(p) => ResponsePayloadModel::SwapEstimate(p@),
        }
    }
}

/// The outcome of a well-formed request on a recognized route: the stored
/// fixture, or a recoverable not-found report carrying the attempted key.
#[derive(Clone, Debug, PartialEq, Eq)]
pub enum QueryOutcome {
    Found(ResponsePayload),
    NotFound(LookupKey),
}

/// Model of a query outcome.
pub ghost enum QueryOutcomeModel {
    Found(ResponsePayloadModel),
    NotFound(LookupKeyModel),
}

impl View for QueryOutcome {
    type V = QueryOutcomeModel;

    open spec fn view(&self) -> QueryOutcomeModel {
        match self {
            QueryOutcome::Found(p) => QueryOutcomeModel::Found(p@),
            QueryOutcome::NotFound(k) => QueryOutcomeModel::NotFound(k@),
        }
    }
}

/// A dispatch-level failure: the route path is not one of the four
/// recognized ones, or the payload does not decode as the recognized
/// route's request shape. Both are recoverable, typed outcomes.
#[derive(Clone, Copy, Debug, PartialEq, Eq, Structural)]
pub enum DispatchFailure {
    UnhandledRoute,
    DecodeFailure,
}

/// What a pool-lookup request for the given pool id yields.
pub open spec fn dispatch_pool(m: QuerierModel, pool_id: u64) -> QueryOutcomeModel {
    if m.pools.contains_key(pool_id) {
        QueryOutcomeModel::Found(ResponsePayloadModel::Pool(m.pools[pool_id]))
    } else {
        QueryOutcomeModel::NotFound(LookupKeyModel::Pool(pool_id))
    }
}

/// What a spot-price request with the given semantic fields yields.
pub open spec fn dispatch_spot(m: QuerierModel, q: (u64, Seq<char>, Seq<char>)) -> QueryOutcomeModel {
    let key = price_key_of(q.0, q.1, q.2);
    if m.spot_prices.contains_key(key) {
        QueryOutcomeModel::Found(ResponsePayloadModel::Spot(m.spot_prices[key]))
    } else {
        QueryOutcomeModel::NotFound(LookupKeyModel::Price(key))
    }
}

/// What a time-weighted-average-price request with the given semantic
/// fields yields.
pub open spec fn dispatch_twap(m: QuerierModel, q: (u64, Seq<char>, Seq<char>)) -> QueryOutcomeModel {
    let key = price_key_of(q.0, q.1, q.2);
    if m.twap_prices.contains_key(key) {
        QueryOutcomeModel::Found(ResponsePayloadModel::Twap(m.twap_prices[key]))
    } else {
        QueryOutcomeModel::NotFound(LookupKeyModel::Price(key))
    }
}

/// What a swap-estimate request with the given route hops yields.
pub open spec fn dispatch_estimate(m: QuerierModel, routes: Seq<(u64, Seq<char>)>) -> QueryOutcomeModel {
    let key = swap_key_of(routes);
    if m.estimate_swaps.contains_key(key) {
        QueryOutcomeModel::Found(ResponsePayloadModel::SwapEstimate(m.estimate_swaps[key]))
    } else {
        QueryOutcomeModel::NotFound(LookupKeyModel::SwapRoutes(key))
    }
}

/// The full dispatcher, as a function of the querier's fixtures, the route
/// path and the decoded payload: route by path, decode once with that
/// route's decoder only, then look the composite key up.
pub open spec fn dispatch_result(m: QuerierModel, path: Seq<char>, data: Seq<u8>) -> Result<
    QueryOutcomeModel,
    DispatchFailure,
> {
    if path == "/osmosis.gamm.v1beta1.Query/Pool"@ {
        match pool_request_of(data) {
            Some(id) => Ok(dispatch_pool(m, id)),
            None => Err(DispatchFailure::DecodeFailure),
        }
    } else if path == "/osmosis.gamm.v1beta1.Query/SpotPrice"@ {
        match spot_request_of(data) {
            Some(q) => Ok(dispatch_spot(m, q)),
            None => Err(DispatchFailure::DecodeFailure),
        }
    } else if path == "/osmosis.twap.v1beta1.Query/ArithmeticTwap"@ {
        match twap_request_of(data) {
            Some(q) => Ok(dispatch_twap(m, q)),
            None => Err(DispatchFailure::DecodeFailure),
        }
    } else if path == "/osmosis.gamm.v1beta1.Query/EstimateSwapExactAmountIn"@ {
        match estimate_request_of(data) {
            Some(routes) => Ok(dispatch_estimate(m, routes)),
            None => Err(DispatchFailure::DecodeFailure),
        }
    } else {
        Err(DispatchFailure::UnhandledRoute)
    }
}

/// An exact copy of a byte vector.
fn clone_bytes(b: &Vec<u8>) -> (r: Vec<u8>)
    ensures
        r@ == b@,
{
    let mut r: Vec<u8> = Vec::new();
    let mut i: usize = 0;
    while i < b.len()
        invariant
            i <= b.len(),
            r@ == b@.subrange(0, i as int),
        decreases b.len() - i,
    {
        r.push(b[i]);
        i += 1;
        proof {
            assert(r@ =~= b@.subrange(0, i as int));
        }
    }
    proof {
        assert(r@ =~= b@);
    }
    r
}

/// An exact copy of a pool-lookup fixture.
fn clone_pool_response(r: &PoolResponse) -> (c: PoolResponse)
    ensures
        c@ == r@,
{
    PoolResponse {
        pool: match &r.pool {
            Some(p) => Some(AnyPayload { type_url: p.type_url.clone(), value: clone_bytes(&p.value) }),
            None => None,
        },
    }
}

/// An exact copy of a spot-price fixture.
fn clone_spot_response(r: &SpotPriceResponse) -> (c: SpotPriceResponse)
    ensures
        c@ == r@,
{
    SpotPriceResponse { spot_price: r.spot_price.clone() }
}

/// An exact copy of a time-weighted-average-price fixture.
fn clone_twap_response(r: &TwapResponse) -> (c: TwapResponse)
    ensures
        c@ == r@,
{
    TwapResponse { arithmetic_twap: r.arithmetic_twap.clone() }
}

/// An exact copy of a swap-estimate fixture.
fn clone_swap_response(r: &SwapEstimateResponse) -> (c: SwapEstimateResponse)
    ensures
        c@ == r@,
{
    SwapEstimateResponse { token_out_amount: r.token_out_amount.clone() }
}

/// Finds the latest entry under the given price key, if any.
fn find_price_key<V>(entries: &Vec<(PriceKey, V)>, key: &PriceKey) -> (r: Option<usize>)
    ensures
        match r {
            Some(i) => i < entries@.len() && entries@[i as int].0@ == key@ && (forall|j: int|
                i < j < entries@.len() ==> entries@[j].0@ != key@),
            None => forall|j: int| 0 <= j < entries@.len() ==> entries@[j].0@ != key@,
        },
{
    let mut i: usize = entries.len();
    while i > 0
        invariant
            i <= entries@.len(),
            forall|j: int| i <= j < entries@.len() ==> entries@[j].0@ != key@,
        decreases i,
    {
        i = i - 1;
        let e = &entries[i];
        if e.0.pool_id == key.pool_id && e.0.denom_in.eq(&key.denom_in) && e.0.denom_out.eq(
            &key.denom_out,
        ) {
            return Some(i);
        }
    }
    None
}

/// Finds the latest entry under the given route key, if any.
fn find_swap_key(entries: &Vec<(String, SwapEstimateResponse)>, key: &String) -> (r: Option<usize>)
    ensures
        match r {
            Some(i) => i < entries@.len() && entries@[i as int].0@ == key@ && (forall|j: int|
                i < j < entries@.len() ==> entries@[j].0@ != key@),
            None => forall|j: int| 0 <= j < entries@.len() ==> entries@[j].0@ != key@,
        },
{
    let mut i: usize = entries.len();
    while i > 0
        invariant
            i <= entries@.len(),
            forall|j: int| i <= j < entries@.len() ==> entries@[j].0@ != key@,
        decreases i,
    {
        i = i - 1;
        let e = &entries[i];
        if e.0.eq(key) {
            return Some(i);
        }
    }
    None
}

impl OsmosisQuerier {
    /// A querier with no fixtures registered.
    pub fn new() -> (q: OsmosisQuerier)
        ensures
            q@.pools == Map::<u64, PoolResponseModel>::empty(),
            q@.spot_prices == Map::<PriceKeyModel, SpotPriceResponseModel>::empty(),
            q@.twap_prices == Map::<PriceKeyModel, TwapResponseModel>::empty(),
            q@.estimate_swaps == Map::<Seq<char>, SwapEstimateResponseModel>::empty(),
    {
        let q = OsmosisQuerier {
            pools: Vec::new(),
            spot_prices: Vec::new(),
            twap_prices: Vec::new(),
            estimate_swaps: Vec::new(),
        };
        proof {
            assert(q.pools@.map_values(|p: (u64, PoolResponse)| (p.0, p.1@)) =~= Seq::<(
                u64,
                PoolResponseModel,
            )>::empty());
            assert(q.spot_prices@.map_values(|p: (PriceKey, SpotPriceResponse)| (p.0@, p.1@)) =~= Seq::<
                (PriceKeyModel, SpotPriceResponseModel),
            >::empty());
            assert(q.twap_prices@.map_values(|p: (PriceKey, TwapResponse)| (p.0@, p.1@)) =~= Seq::<(
                PriceKeyModel,
                TwapResponseModel,
            )>::empty());
            assert(q.estimate_swaps@.map_values(|p: (String, SwapEstimateResponse)| (p.0@, p.1@))
                =~= Seq::<(Seq<char>, SwapEstimateResponseModel)>::empty());
        }
        q
    }

    /// Registers a pool-lookup fixture under the given pool id, replacing an
    /// earlier fixture under the same id.
    pub fn insert_pool(&mut self, pool_id: u64, resp: PoolResponse)
        ensures
            final(self)@.pools == old(self)@.pools.insert(pool_id, resp@),
            final(self)@.spot_prices == old(self)@.spot_prices,
            final(self)@.twap_prices == old(self)@.twap_prices,
            final(self)@.estimate_swaps == old(self)@.estimate_swaps,
    {
        let ghost prev = self.pools@.map_values(|p: (u64, PoolResponse)| (p.0, p.1@));
        self.pools.push((pool_id, resp));
        proof {
            let now = self.pools@.map_values(|p: (u64, PoolResponse)| (p.0, p.1@));
            assert(now =~= prev.push((pool_id, resp@)));
            assert(now.drop_last() =~= prev);
        }
    }

    /// Registers a spot-price fixture under the given key, replacing an
    /// earlier fixture under the same key.
    pub fn insert_spot_price(&mut self, key: PriceKey, resp: SpotPriceResponse)
        ensures
            final(self)@.spot_prices == old(self)@.spot_prices.insert(key@, resp@),
            final(self)@.pools == old(self)@.pools,
            final(self)@.twap_prices == old(self)@.twap_prices,
            final(self)@.estimate_swaps == old(self)@.estimate_swaps,
    {
        let ghost prev = self.spot_prices@.map_values(|p: (PriceKey, SpotPriceResponse)| (p.0@, p.1@));
        self.spot_prices.push((key, resp));
        proof {
            let now = self.spot_prices@.map_values(|p: (PriceKey, SpotPriceResponse)| (p.0@, p.1@));
            assert(now =~= prev.push((key@, resp@)));
            assert(now.drop_last() =~= prev);
        }
    }

    /// Registers a time-weighted-average-price fixture under the given key,
    /// replacing an earlier fixture under the same key.
    pub fn insert_twap_price(&mut self, key: PriceKey, resp: TwapResponse)
        ensures
            final(self)@.twap_prices == old(self)@.twap_prices.insert(key@, resp@),
            final(self)@.pools == old(self)@.pools,
            final(self)@.spot_prices == old(self)@.spot_prices,
            final(self)@.estimate_swaps == old(self)@.estimate_swaps,
    {
        let ghost prev = self.twap_prices@.map_values(|p: (PriceKey, TwapResponse)| (p.0@, p.1@));
        self.twap_prices.push((key, resp));
        proof {
            let now = self.twap_prices@.map_values(|p: (PriceKey, TwapResponse)| (p.0@, p.1@));
            assert(now =~= prev.push((key@, resp@)));
            assert(now.drop_last() =~= prev);
        }
    }

    /// Registers a swap-estimate fixture under the given route key (see
    /// `prepare_estimate_swap_key`), replacing an earlier fixture under the
    /// same key.
    pub fn insert_estimate_swap(&mut self, key: String, resp: SwapEstimateResponse)
        ensures
            final(self)@.estimate_swaps == old(self)@.estimate_swaps.insert(key@, resp@),
            final(self)@.pools == old(self)@.pools,
            final(self)@.spot_prices == old(self)@.spot_prices,
            final(self)@.twap_prices == old(self)@.twap_prices,
    {
        let ghost prev = self.estimate_swaps@.map_values(
            |p: (String, SwapEstimateResponse)| (p.0@, p.1@),
        );
        self.estimate_swaps.push((key, resp));
        proof {
            let now = self.estimate_swaps@.map_values(
                |p: (String, SwapEstimateResponse)| (p.0@, p.1@),
            );
            assert(now =~= prev.push((key@, resp@)));
            assert(now.drop_last() =~= prev);
        }
    }

    /// The route key of a multi-hop swap: `"{pool_id}.{output_denom}"` per
    /// hop, hops in request order, joined by single commas.
    pub fn prepare_estimate_swap_key(route: &Vec<SwapStep>) -> (r: String)
        ensures
            r@ == swap_key_of(route.deep_view()),
    {
        let mut r = String::new();
        let mut i: usize = 0;
        while i < route.len()
            invariant
                i <= route.len(),
                r@ == swap_key_of(route.deep_view().subrange(0, i as int)),
            decreases route.len() - i,
        {
            if i > 0 {
                r.append(",");
            }
            let step = &route[i];
            let num = u64_to_decimal(step.pool_id);
            r.append(num.as_str());
            r.append(".");
            r.append(step.token_out_denom.as_str());
            proof {
                let dv = route.deep_view();
                let pre = dv.subrange(0, i as int);
                let cur = dv.subrange(0, i as int + 1);
                assert(dv[i as int] == (step.pool_id, step.token_out_denom@));
                assert(cur =~= pre.push(dv[i as int]));
                if i == 0 {
                    assert(r@ =~= swap_step_key(step.pool_id, step.token_out_denom@));
                    assert(r@ =~= swap_key_of(cur));
                } else {
                    assert(cur.drop_last() =~= pre);
                    assert(r@ =~= swap_key_of(pre) + ","@ + swap_step_key(
                        step.pool_id,
                        step.token_out_denom@,
                    ));
                    assert(r@ =~= swap_key_of(cur));
                }
            }
            i += 1;
        }
        proof {
            assert(route.deep_view().subrange(0, route.len() as int) =~= route.deep_view());
        }
        r
    }

    /// Serves a pool-lookup request for the given pool id.
    pub fn handle_query_pool_request(&self, pool_id: u64) -> (r: QueryOutcome)
        ensures
            r@ == dispatch_pool(self@, pool_id),
    {
        let ghost pairs = self.pools@.map_values(|p: (u64, PoolResponse)| (p.0, p.1@));
        let mut i: usize = self.pools.len();
        while i > 0
            invariant
                i <= self.pools@.len(),
                pairs == self.pools@.map_values(|p: (u64, PoolResponse)| (p.0, p.1@)),
                forall|j: int| i <= j < pairs.len() ==> pairs[j].0 != pool_id,
            decreases i,
        {
            i = i - 1;
            if self.pools[i].0 == pool_id {
                proof {
                    lemma_map_of_match(pairs, i as int);
                }
                let resp = clone_pool_response(&self.pools[i].1);
                return QueryOutcome::Found(ResponsePayload::Pool(resp));
            }
        }
        proof {
            lemma_map_of_no_match(pairs, pool_id);
        }
        QueryOutcome::NotFound(LookupKey::Pool(pool_id))
    }

    /// Serves a spot-price request: the key is (pool id, base asset denom as
    /// input, quote asset denom as output).
    pub fn handle_query_spot_request(
        &self,
        pool_id: u64,
        base_asset_denom: String,
        quote_asset_denom: String,
    ) -> (r: QueryOutcome)
        ensures
            r@ == dispatch_spot(self@, (pool_id, base_asset_denom@, quote_asset_denom@)),
    {
        let key = PriceKey { pool_id, denom_in: base_asset_denom, denom_out: quote_asset_denom };
        let ghost pairs = self.spot_prices@.map_values(
            |p: (PriceKey, SpotPriceResponse)| (p.0@, p.1@),
        );
        match find_price_key(&self.spot_prices, &key) {
            Some(i) => {
                proof {
                    assert(forall|j: int| i < j < pairs.len() ==> pairs[j].0 != key@);
                    lemma_map_of_match(pairs, i as int);
                }
                let resp = clone_spot_response(&self.spot_prices[i].1);
                QueryOutcome::Found(ResponsePayload::Spot(resp))
            },
            None => {
                proof {
                    assert(forall|j: int| 0 <= j < pairs.len() ==> pairs[j].0 != key@);
                    lemma_map_of_no_match(pairs, key@);
                }
                QueryOutcome::NotFound(LookupKey::Price(key))
            },
        }
    }

    /// Serves a time-weighted-average-price request: the key is (pool id,
    /// base asset as input, quote asset as output) — the same key shape a
    /// spot-price request with the same semantic fields builds.
    pub fn handle_query_twap_request(
        &self,
        pool_id: u64,
        base_asset: String,
        quote_asset: String,
    ) -> (r: QueryOutcome)
        ensures
            r@ == dispatch_twap(self@, (pool_id, base_asset@, quote_asset@)),
    {
        let key = PriceKey { pool_id, denom_in: base_asset, denom_out: quote_asset };
        let ghost pairs = self.twap_prices@.map_values(|p: (PriceKey, TwapResponse)| (p.0@, p.1@));
        match find_price_key(&self.twap_prices, &key) {
            Some(i) => {
                proof {
                    assert(forall|j: int| i < j < pairs.len() ==> pairs[j].0 != key@);
                    lemma_map_of_match(pairs, i as int);
                }
                let resp = clone_twap_response(&self.twap_prices[i].1);
                QueryOutcome::Found(ResponsePayload::Twap(resp))
            },
            None => {
                proof {
                    assert(forall|j: int| 0 <= j < pairs.len() ==> pairs[j].0 != key@);
                    lemma_map_of_no_match(pairs, key@);
                }
                QueryOutcome::NotFound(LookupKey::Price(key))
            },
        }
    }

    /// Serves a swap-estimate request: the key is built from the route hops
    /// alone, so any other field of the request cannot change which fixture
    /// is hit.
    pub fn handle_query_estimate_request(&self, routes: Vec<SwapStep>) -> (r: QueryOutcome)
        ensures
            r@ == dispatch_estimate(self@, routes.deep_view()),
    {
        let key = Self::prepare_estimate_swap_key(&routes);
        let ghost pairs = self.estimate_swaps@.map_values(
            |p: (String, SwapEstimateResponse)| (p.0@, p.1@),
        );
        match find_swap_key(&self.estimate_swaps, &key) {
            Some(i) => {
                proof {
                    assert(forall|j: int| i < j < pairs.len() ==> pairs[j].0 != key@);
                    lemma_map_of_match(pairs, i as int);
                }
                let resp = clone_swap_response(&self.estimate_swaps[i].1);
                QueryOutcome::Found(ResponsePayload::SwapEstimate(resp))
            },
            None => {
                proof {
                    assert(forall|j: int| 0 <= j < pairs.len() ==> pairs[j].0 != key@);
                    lemma_map_of_no_match(pairs, key@);
                }
                QueryOutcome::NotFound(LookupKey::SwapRoutes(key))
            },
        }
    }

    /// The dispatcher's entry point: routes by the opaque path, decodes the
    /// payload once with that route's decoder only, and serves the request.
    /// An unrecognized path or a payload that does not decode is a typed,
    /// recoverable failure, never a crash, and a decode failure on one route
    /// is never retried against another route's decoder.
    pub fn handle_stargate_query(&self, path: &str, data: &cosmwasm_std::Binary) -> (r: Result<
        QueryOutcome,
        DispatchFailure,
    >)
        ensures
            match r {
                Ok(o) => dispatch_result(self@, path@, binary_bytes(*data)) == Ok::<
                    QueryOutcomeModel,
                    DispatchFailure,
                >(o@),
                Err(e) => dispatch_result(self@, path@, binary_bytes(*data)) == Err::<
                    QueryOutcomeModel,
                    DispatchFailure,
                >(e),
            },
    {
        let bytes = binary_as_slice(data);
        let p = path.to_owned();
        if p.eq(&String::from_str("/osmosis.gamm.v1beta1.Query/Pool")) {
            match decode_pool_request(bytes) {
                Some(pool_id) => Ok(self.handle_query_pool_request(pool_id)),
                None => Err(DispatchFailure::DecodeFailure),
            }
        } else if p.eq(&String::from_str("/osmosis.gamm.v1beta1.Query/SpotPrice")) {
            match decode_spot_request(bytes) {
                Some((pool_id, base, quote)) => Ok(
                    self.handle_query_spot_request(pool_id, base, quote),
                ),
                None => Err(DispatchFailure::DecodeFailure),
            }
        } else if p.eq(&String::from_str("/osmosis.twap.v1beta1.Query/ArithmeticTwap")) {
            match decode_twap_request(bytes) {
                Some((pool_id, base, quote)) => Ok(
                    self.handle_query_twap_request(pool_id, base, quote),
                ),
                None => Err(DispatchFailure::DecodeFailure),
            }
        } else if p.eq(&String::from_str("/osmosis.gamm.v1beta1.Query/EstimateSwapExactAmountIn")) {
            match decode_estimate_request(bytes) {
                Some(routes) => Ok(self.handle_query_estimate_request(routes)),
                None => Err(DispatchFailure::DecodeFailure),
            }
        } else {
            Err(DispatchFailure::UnhandledRoute)
        }
    }
}

/// The diagnostic line a missed lookup carries: it names the attempted key.
pub open spec fn describe_key(k: LookupKeyModel) -> Seq<char> {
    match k {
        LookupKeyModel::Pool(pool_id) => "QueryPoolResponse is not found for pool id: "@
            + decimal_of(pool_id as nat),
        LookupKeyModel::Price(key) => "price fixture is not found for price key: PriceKey { pool_id: "@
            + decimal_of(key.pool_id as nat) + ", denom_in: \""@ + key.denom_in + "\", denom_out: \""@
            + key.denom_out + "\" }"@,
        LookupKeyModel::SwapRoutes(routes_key) => "QuerySwapExactAmountInRequest is not found for routes: \""@
            + routes_key + "\""@,
    }
}

impl LookupKey {
    /// The human-readable message for a missed lookup, naming the key that
    /// was searched for, exactly as `describe_key` states it.
    pub fn describe(&self) -> (r: String)
        ensures
            r@ == describe_key(self@),
    {
        match self {
            LookupKey::Pool(pool_id) => {
                let mut r = String::from_str("QueryPoolResponse is not found for pool id: ");
                let num = u64_to_decimal(*pool_id);
                r.append(num.as_str());
                proof {
                    assert(r@ =~= describe_key(self@));
                }
                r
            },
            LookupKey::Price(key) => {
                let mut r = String::from_str(
                    "price fixture is not found for price key: PriceKey { pool_id: ",
                );
                let num = u64_to_decimal(key.pool_id);
                r.append(num.as_str());
                r.append(", denom_in: \"");
                r.append(key.denom_in.as_str());
                r.append("\", denom_out: \"");
                r.append(key.denom_out.as_str());
                r.append("\" }");
                proof {
                    assert(r@ =~= describe_key(self@));
                }
                r
            },
            LookupKey::SwapRoutes(routes_key) => {
                let mut r = String::from_str(
                    "QuerySwapExactAmountInRequest is not found for routes: \"",
                );
                r.append(routes_key.as_str());
                r.append("\"");
                proof {
                    assert(r@ =~= describe_key(self@));
                }
                r
            },
        }
    }
}

impl Default for OsmosisQuerier {
    /// Same as `OsmosisQuerier::new`: a querier with no fixtures registered.
    fn default() -> (q: Self)
        ensures
            q@.pools == Map::<u64, PoolResponseModel>::empty(),
            q@.spot_prices == Map::<PriceKeyModel, SpotPriceResponseModel>::empty(),
            q@.twap_prices == Map::<PriceKeyModel, TwapResponseModel>::empty(),
            q@.estimate_swaps == Map::<Seq<char>, SwapEstimateResponseModel>::empty(),
    {
        OsmosisQuerier::new()
    }
}

/// Dispatch is a pure function of the request's semantic fields: two
/// payloads that decode to the same fields — however differently they were
/// encoded — produce identical lookups and identical results on every
/// route.
pub proof fn lemma_dispatch_depends_on_fields_alone(
    m: QuerierModel,
    path: Seq<char>,
    d1: Seq<u8>,
    d2: Seq<u8>,
)
    requires
        pool_request_of(d1) == pool_request_of(d2),
        spot_request_of(d1) == spot_request_of(d2),
        twap_request_of(d1) == twap_request_of(d2),
        estimate_request_of(d1) == estimate_request_of(d2),
    ensures
        dispatch_result(m, path, d1) == dispatch_result(m, path, d2),
{
}

} // verus!
