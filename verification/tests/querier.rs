use cosmwasm_std::Binary;
use credit_manager::numeral::u64_to_decimal;
use credit_manager::querier::{
    AnyPayload, DispatchFailure, LookupKey, OsmosisQuerier, PoolResponse, PriceKey, QueryOutcome,
    ResponsePayload, SpotPriceResponse, SwapEstimateResponse, SwapStep, TwapResponse,
};
use osmosis_std::types::osmosis::poolmanager::v1beta1::SwapAmountInRoute;
use osmosis_std::types::osmosis::twap::v1beta1::ArithmeticTwapRequest;
use prost::Message;

const POOL_PATH: &str = "/osmosis.gamm.v1beta1.Query/Pool";
const SPOT_PATH: &str = "/osmosis.gamm.v1beta1.Query/SpotPrice";
const TWAP_PATH: &str = "/osmosis.twap.v1beta1.Query/ArithmeticTwap";
const ESTIMATE_PATH: &str = "/osmosis.gamm.v1beta1.Query/EstimateSwapExactAmountIn";

#[allow(deprecated)]
fn encode_pool_request(pool_id: u64) -> Binary {
    let req = osmosis_std::types::osmosis::gamm::v1beta1::QueryPoolRequest { pool_id };
    Binary::from(req.encode_to_vec())
}

#[allow(deprecated)]
fn encode_spot_request(pool_id: u64, base: &str, quote: &str, with_swap_fee: bool) -> Binary {
    let req = osmosis_std::types::osmosis::gamm::v1beta1::QuerySpotPriceRequest {
        pool_id,
        base_asset_denom: base.to_string(),
        quote_asset_denom: quote.to_string(),
        with_swap_fee,
    };
    Binary::from(req.encode_to_vec())
}

fn encode_twap_request(pool_id: u64, base: &str, quote: &str) -> Binary {
    let req = ArithmeticTwapRequest {
        pool_id,
        base_asset: base.to_string(),
        quote_asset: quote.to_string(),
        start_time: None,
        end_time: None,
    };
    Binary::from(req.encode_to_vec())
}

#[allow(deprecated)]
fn encode_estimate_request(sender: &str, token_in: &str, hops: &[(u64, &str)]) -> Binary {
    let req = osmosis_std::types::osmosis::gamm::v1beta1::QuerySwapExactAmountInRequest {
        sender: sender.to_string(),
        pool_id: 0,
        token_in: token_in.to_string(),
        routes: hops
            .iter()
            .map(|(pool_id, denom)| SwapAmountInRoute {
                pool_id: *pool_id,
                token_out_denom: denom.to_string(),
            })
            .collect(),
    };
    Binary::from(req.encode_to_vec())
}

fn price_key(pool_id: u64, denom_in: &str, denom_out: &str) -> PriceKey {
    PriceKey {
        pool_id,
        denom_in: denom_in.to_string(),
        denom_out: denom_out.to_string(),
    }
}

#[test]
fn test_pool_route_serves_registered_fixture() {
    let mut querier = OsmosisQuerier::new();
    let fixture = PoolResponse {
        pool: Some(AnyPayload {
            type_url: "/osmosis.gamm.v1beta1.Pool".to_string(),
            value: vec![1, 2, 3],
        }),
    };
    querier.insert_pool(7, fixture.clone());

    let res = querier
        .handle_stargate_query(POOL_PATH, &encode_pool_request(7))
        .unwrap();
    assert_eq!(res, QueryOutcome::Found(ResponsePayload::Pool(fixture)));

    let missing = querier
        .handle_stargate_query(POOL_PATH, &encode_pool_request(8))
        .unwrap();
    assert_eq!(missing, QueryOutcome::NotFound(LookupKey::Pool(8)));
}

#[test]
fn test_spot_and_twap_resolve_their_own_fixtures() {
    // One spot fixture and one TWAP fixture registered for the same three
    // semantic fields: each request shape resolves to its own fixture using
    // the same constructed key shape.
    let mut querier = OsmosisQuerier::new();
    querier.insert_spot_price(
        price_key(7, "uosmo", "uusd"),
        SpotPriceResponse {
            spot_price: "1.25".to_string(),
        },
    );
    querier.insert_twap_price(
        price_key(7, "uosmo", "uusd"),
        TwapResponse {
            arithmetic_twap: "1.24".to_string(),
        },
    );

    let spot = querier
        .handle_stargate_query(SPOT_PATH, &encode_spot_request(7, "uosmo", "uusd", false))
        .unwrap();
    assert_eq!(
        spot,
        QueryOutcome::Found(ResponsePayload::Spot(SpotPriceResponse {
            spot_price: "1.25".to_string(),
        }))
    );

    let twap = querier
        .handle_stargate_query(TWAP_PATH, &encode_twap_request(7, "uosmo", "uusd"))
        .unwrap();
    assert_eq!(
        twap,
        QueryOutcome::Found(ResponsePayload::Twap(TwapResponse {
            arithmetic_twap: "1.24".to_string(),
        }))
    );

    // Another pool id with the same denoms misses, and the report names the
    // exact key that was tried.
    let missing = querier
        .handle_stargate_query(SPOT_PATH, &encode_spot_request(8, "uosmo", "uusd", false))
        .unwrap();
    assert_eq!(
        missing,
        QueryOutcome::NotFound(LookupKey::Price(price_key(8, "uosmo", "uusd")))
    );
}

#[test]
fn test_differently_encoded_spot_requests_hit_same_fixture() {
    // Two encodings differing in a non-semantic field carry the same
    // (pool id, input denom, output denom): identical lookups, identical
    // results.
    let mut querier = OsmosisQuerier::new();
    querier.insert_spot_price(
        price_key(7, "uosmo", "uusd"),
        SpotPriceResponse {
            spot_price: "2.5".to_string(),
        },
    );

    let enc_a = encode_spot_request(7, "uosmo", "uusd", false);
    let enc_b = encode_spot_request(7, "uosmo", "uusd", true);
    assert_ne!(enc_a.as_slice(), enc_b.as_slice());

    let res_a = querier.handle_stargate_query(SPOT_PATH, &enc_a).unwrap();
    let res_b = querier.handle_stargate_query(SPOT_PATH, &enc_b).unwrap();
    assert_eq!(res_a, res_b);
    assert_eq!(
        res_a,
        QueryOutcome::Found(ResponsePayload::Spot(SpotPriceResponse {
            spot_price: "2.5".to_string(),
        }))
    );
}

#[test]
fn test_estimate_key_ignores_non_route_fields() {
    let mut querier = OsmosisQuerier::new();
    querier.insert_estimate_swap(
        "1.uosmo,2.uusd".to_string(),
        SwapEstimateResponse {
            token_out_amount: "991".to_string(),
        },
    );

    let hops: &[(u64, &str)] = &[(1, "uosmo"), (2, "uusd")];
    let enc_a = encode_estimate_request("alice", "uatom", hops);
    let enc_b = encode_estimate_request("bob", "ujuno", hops);
    assert_ne!(enc_a.as_slice(), enc_b.as_slice());

    let res_a = querier.handle_stargate_query(ESTIMATE_PATH, &enc_a).unwrap();
    let res_b = querier.handle_stargate_query(ESTIMATE_PATH, &enc_b).unwrap();
    assert_eq!(res_a, res_b);
    assert_eq!(
        res_a,
        QueryOutcome::Found(ResponsePayload::SwapEstimate(SwapEstimateResponse {
            token_out_amount: "991".to_string(),
        }))
    );

    // Reordered hops build another key and miss.
    let reordered = encode_estimate_request("alice", "uatom", &[(2, "uusd"), (1, "uosmo")]);
    let missing = querier
        .handle_stargate_query(ESTIMATE_PATH, &reordered)
        .unwrap();
    assert_eq!(
        missing,
        QueryOutcome::NotFound(LookupKey::SwapRoutes("2.uusd,1.uosmo".to_string()))
    );
}

#[test]
fn test_prepare_estimate_swap_key_format() {
    let route = vec![
        SwapStep {
            pool_id: 1,
            token_out_denom: "uosmo".to_string(),
        },
        SwapStep {
            pool_id: 2,
            token_out_denom: "uusd".to_string(),
        },
    ];
    assert_eq!(
        OsmosisQuerier::prepare_estimate_swap_key(&route),
        "1.uosmo,2.uusd".to_string()
    );

    let single = vec![SwapStep {
        pool_id: 430,
        token_out_denom: "uion".to_string(),
    }];
    assert_eq!(
        OsmosisQuerier::prepare_estimate_swap_key(&single),
        "430.uion".to_string()
    );

    let empty: Vec<SwapStep> = vec![];
    assert_eq!(
        OsmosisQuerier::prepare_estimate_swap_key(&empty),
        String::new()
    );
}

#[test]
fn test_u64_decimal_rendering() {
    assert_eq!(u64_to_decimal(0), "0".to_string());
    assert_eq!(u64_to_decimal(7), "7".to_string());
    assert_eq!(u64_to_decimal(10), "10".to_string());
    assert_eq!(u64_to_decimal(12345), "12345".to_string());
    assert_eq!(
        u64_to_decimal(u64::MAX),
        "18446744073709551615".to_string()
    );
}

#[test]
fn test_unrecognized_route_is_rejected() {
    let querier = OsmosisQuerier::new();
    let res = querier.handle_stargate_query(
        "/osmosis.gamm.v1beta1.Query/Pools",
        &encode_pool_request(7),
    );
    assert_eq!(res, Err(DispatchFailure::UnhandledRoute));
}

#[test]
fn test_undecodable_payload_is_rejected_not_retried() {
    // An invalid wire-format payload on a recognized route fails as a decode
    // failure; it is not reported as a missed lookup.
    let querier = OsmosisQuerier::new();
    let garbage = Binary::from(vec![0xffu8, 0xff]);
    let res = querier.handle_stargate_query(POOL_PATH, &garbage);
    assert_eq!(res, Err(DispatchFailure::DecodeFailure));
    let res = querier.handle_stargate_query(TWAP_PATH, &garbage);
    assert_eq!(res, Err(DispatchFailure::DecodeFailure));
}

#[test]
fn test_later_fixture_replaces_earlier() {
    let mut querier = OsmosisQuerier::new();
    querier.insert_spot_price(
        price_key(7, "uosmo", "uusd"),
        SpotPriceResponse {
            spot_price: "1.0".to_string(),
        },
    );
    querier.insert_spot_price(
        price_key(7, "uosmo", "uusd"),
        SpotPriceResponse {
            spot_price: "3.0".to_string(),
        },
    );
    let res = querier
        .handle_stargate_query(SPOT_PATH, &encode_spot_request(7, "uosmo", "uusd", false))
        .unwrap();
    assert_eq!(
        res,
        QueryOutcome::Found(ResponsePayload::Spot(SpotPriceResponse {
            spot_price: "3.0".to_string(),
        }))
    );
}

#[test]
fn test_swapped_denoms_build_another_key() {
    // Field order matters in the composite key: input and output denoms are
    // not interchangeable.
    let mut querier = OsmosisQuerier::new();
    querier.insert_spot_price(
        price_key(7, "uosmo", "uusd"),
        SpotPriceResponse {
            spot_price: "4.0".to_string(),
        },
    );
    let res = querier
        .handle_stargate_query(SPOT_PATH, &encode_spot_request(7, "uusd", "uosmo", false))
        .unwrap();
    assert_eq!(
        res,
        QueryOutcome::NotFound(LookupKey::Price(price_key(7, "uusd", "uosmo")))
    );
}

#[test]
fn test_describe_names_the_missing_key() {
    assert_eq!(
        LookupKey::Pool(7).describe(),
        "QueryPoolResponse is not found for pool id: 7".to_string()
    );
    assert_eq!(
        LookupKey::Price(price_key(8, "uosmo", "uusd")).describe(),
        "price fixture is not found for price key: PriceKey { pool_id: 8, denom_in: \"uosmo\", denom_out: \"uusd\" }"
            .to_string()
    );
    assert_eq!(
        LookupKey::SwapRoutes("1.uosmo,2.uusd".to_string()).describe(),
        "QuerySwapExactAmountInRequest is not found for routes: \"1.uosmo,2.uusd\"".to_string()
    );
}
