//! Wallets, transfers and the addresses allowed for withdrawals.
use crate::query::{endpoint_for, pair_views, push_pair, urlencoded, with_query, QueryError};
use vstd::prelude::*;

verus! {

/// A wallet that holds one asset on one chain.
#[derive(Debug, Clone)]
pub struct Wallet {
    pub chain: String,
    pub address: String,
    pub created_at: String,
}

/// A withdrawal to be made.
#[derive(Debug, Clone)]
pub struct CryptoWithdrawalParams {
    /// How much is withdrawn.
    pub amount: String,
    /// Where it goes.
    pub address: String,
    /// What is withdrawn.
    pub asset: String,
}

impl CryptoWithdrawalParams {
    /// Puts the fields together.
    pub fn new(amount: String, address: String, asset: String) -> (r: Self)
        ensures
            r.amount == amount,
            r.address == address,
            r.asset == asset,
    {
        CryptoWithdrawalParams {
            amount,
            address,
            asset,
        }
    }
}

/// An address to which withdrawals are allowed.
#[derive(Debug, Clone)]
pub struct WhitelistedAddresses {
    pub id: String,
    pub chain: String,
    pub asset: String,
    pub address: String,
    pub status: String,
    pub created_at: String,
}

/// An address to be allowed.
#[derive(Debug, Clone)]
pub struct AddWhitelistedAddressParams {
    pub address: String,
    pub asset: String,
}

impl AddWhitelistedAddressParams {
    /// Puts the fields together.
    pub fn new(address: String, asset: String) -> (r: Self)
        ensures
            r.address == address,
            r.asset == asset,
    {
        AddWhitelistedAddressParams {
            address,
            asset,
        }
    }
}

/// A transfer whose fee is asked for.
#[derive(Debug, Clone)]
pub struct EstimatedGasFeeParams {
    pub asset: String,
    pub from_address: String,
    pub to_address: String,
    pub amount: String,
}

impl EstimatedGasFeeParams {
    /// Puts the fields together.
    pub fn new(asset: String, from_address: String, to_address: String, amount: String) -> (r: Self)
        ensures
            r.asset == asset,
            r.from_address == from_address,
            r.to_address == to_address,
            r.amount == amount,
    {
        EstimatedGasFeeParams {
            asset,
            from_address,
            to_address,
            amount,
        }
    }
}

/// The fee a transfer would cost.
#[derive(Debug, Clone)]
pub struct EstimatedGasFee {
    pub fee: String,
}

impl EstimatedGasFeeParams {
    /// The pairs of the query, in the order of the fields; a field left out
    /// gives no pair.
    pub open spec fn pairs(&self) -> Seq<(Seq<char>, Seq<char>)> {
        let p = Seq::empty();
        let p = p.push(("asset"@, self.asset@));
        let p = p.push(("from_address"@, self.from_address@));
        let p = p.push(("to_address"@, self.to_address@));
        let p = p.push(("amount"@, self.amount@));
        p
    }

    /// The pairs of the query.
    pub fn query_pairs(&self) -> (r: Vec<(String, String)>)
        ensures
            pair_views(r@) == self.pairs(),
    {
        let mut pairs: Vec<(String, String)> = Vec::new();
        assert(pair_views(pairs@) =~= Seq::empty());
        push_pair(&mut pairs, "asset", self.asset.clone());
        push_pair(&mut pairs, "from_address", self.from_address.clone());
        push_pair(&mut pairs, "to_address", self.to_address.clone());
        push_pair(&mut pairs, "amount", self.amount.clone());
        pairs
    }
}

/// The endpoint that estimates the fee of a transfer.
pub fn estimated_gas_fee_endpoint(params: &EstimatedGasFeeParams) -> (r: Result<String, QueryError>)
    ensures
        match r {
            Ok(e) => urlencoded(params.pairs()) matches Some(q) && e@ == with_query(
                "/v2/wallets/fees/estimate"@,
                q,
            ),
            Err(_) => urlencoded(params.pairs()) is None,
        },
{
    endpoint_for("/v2/wallets/fees/estimate", &params.query_pairs())
}

} // verus!
