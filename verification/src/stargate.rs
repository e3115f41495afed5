use vstd::prelude::*;
use crate::querier::SwapStep;

verus! {

/// The binary payload container of the host chain's query bus
/// (`cosmwasm_std::Binary`, a newtype over a byte vector). Opaque here; its
/// contents are reached through `binary_bytes`.
#[verifier::external_type_specification]
#[verifier::external_body]
pub struct ExBinary(cosmwasm_std::Binary);

/// The bytes a `cosmwasm_std::Binary` holds.
pub uninterp spec fn binary_bytes(b: cosmwasm_std::Binary) -> Seq<u8>;

/// Relies on cosmwasm_std::Binary::as_slice: a Binary is a newtype over a
/// byte vector, and `as_slice` hands that vector's bytes out unchanged.
#[verifier::external_body]
pub fn binary_as_slice(b: &cosmwasm_std::Binary) -> (r: &[u8])
    ensures
        r@ == binary_bytes(*b),
{
    b.as_slice()
}

/// What protobuf decoding of a pool-lookup request yields from the given
/// bytes: the requested pool id, or nothing if the bytes do not decode.
pub uninterp spec fn pool_request_of(data: Seq<u8>) -> Option<u64>;

/// What protobuf decoding of a spot-price request yields: the pool id, the
/// base asset denom and the quote asset denom, or nothing if the bytes do
/// not decode.
pub uninterp spec fn spot_request_of(data: Seq<u8>) -> Option<(u64, Seq<char>, Seq<char>)>;

/// What protobuf decoding of a time-weighted-average-price request yields:
/// the pool id, the base asset denom and the quote asset denom, or nothing
/// if the bytes do not decode.
pub uninterp spec fn twap_request_of(data: Seq<u8>) -> Option<(u64, Seq<char>, Seq<char>)>;

/// What protobuf decoding of a swap-estimate request yields: the hops of the
/// requested route, each a pool id and an output denom, in request order, or
/// nothing if the bytes do not decode. Other fields of the request (sender,
/// input token) play no part in fixture lookup and are not retained.
pub uninterp spec fn estimate_request_of(data: Seq<u8>) -> Option<Seq<(u64, Seq<char>)>>;

/// Relies on prost::Message::decode for
/// osmosis_std::types::osmosis::gamm::v1beta1::QueryPoolRequest: decoding is
/// a function of the bytes alone, and a decoded request carries its pool id.
#[allow(deprecated)]
#[verifier::external_body]
pub fn decode_pool_request(data: &[u8]) -> (r: Option<u64>)
    ensures
        r == pool_request_of(data@),
{
    let parsed: Result<osmosis_std::types::osmosis::gamm::v1beta1::QueryPoolRequest, prost::DecodeError> =
        prost::Message::decode(data);
    match parsed {
        Ok(q) => Some(q.pool_id),
        Err(_) => None,
    }
}

/// Relies on prost::Message::decode for
/// osmosis_std::types::osmosis::gamm::v1beta1::QuerySpotPriceRequest:
/// decoding is a function of the bytes alone, and a decoded request carries
/// its pool id, base asset denom and quote asset denom.
#[allow(deprecated)]
#[verifier::external_body]
pub fn decode_spot_request(data: &[u8]) -> (r: Option<(u64, String, String)>)
    ensures
        match r {
            Some(q) => spot_request_of(data@) == Some((q.0, q.1@, q.2@)),
            None => spot_request_of(data@) is None,
        },
{
    let parsed: Result<osmosis_std::types::osmosis::gamm::v1beta1::QuerySpotPriceRequest, prost::DecodeError> =
        prost::Message::decode(data);
    match parsed {
        Ok(q) => Some((q.pool_id, q.base_asset_denom, q.quote_asset_denom)),
        Err(_) => None,
    }
}

/// Relies on prost::Message::decode for
/// osmosis_std::types::osmosis::twap::v1beta1::ArithmeticTwapRequest:
/// decoding is a function of the bytes alone, and a decoded request carries
/// its pool id, base asset and quote asset.
#[verifier::external_body]
pub fn decode_twap_request(data: &[u8]) -> (r: Option<(u64, String, String)>)
    ensures
        match r {
            Some(q) => twap_request_of(data@) == Some((q.0, q.1@, q.2@)),
            None => twap_request_of(data@) is None,
        },
{
    let parsed: Result<osmosis_std::types::osmosis::twap::v1beta1::ArithmeticTwapRequest, prost::DecodeError> =
        prost::Message::decode(data);
    match parsed {
        Ok(q) => Some((q.pool_id, q.base_asset, q.quote_asset)),
        Err(_) => None,
    }
}

/// Relies on prost::Message::decode for
/// osmosis_std::types::osmosis::gamm::v1beta1::QuerySwapExactAmountInRequest:
/// decoding is a function of the bytes alone, and a decoded request carries
/// its route hops, each a pool id and an output denom, in order.
#[allow(deprecated)]
#[verifier::external_body]
pub fn decode_estimate_request(data: &[u8]) -> (r: Option<Vec<SwapStep>>)
    ensures
        match r {
            Some(v) => estimate_request_of(data@) == Some(v.deep_view()),
            None => estimate_request_of(data@) is None,
        },
{
    let parsed: Result<osmosis_std::types::osmosis::gamm::v1beta1::QuerySwapExactAmountInRequest, prost::DecodeError> =
        prost::Message::decode(data);
    match parsed {
        Ok(q) => Some(
            q.routes
                .into_iter()
                .map(|s| SwapStep { pool_id: s.pool_id, token_out_denom: s.token_out_denom })
                .collect(),
        ),
        Err(_) => None,
    }
}

} // verus!
