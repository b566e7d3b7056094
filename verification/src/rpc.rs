//! The Tendermint RPC requests from which the light client assembles light
//! blocks, and the report of misbehaviour it sends back.
use vstd::prelude::*;
use vstd::string::*;

use crate::text::{decimal, push_decimal};

verus! {

/// How long, in seconds, a validator set is trusted for.
pub const TRUSTING_PERIOD: u64 = 3600000;
/// How far, in seconds, the local clock may drift behind the chain's.
pub const CLOCK_DRIFT: u64 = 1;

/// Where a light client starts from.
#[derive(Clone, Copy, Debug, PartialEq, Eq, Structural)]
pub enum TrustSource {
    /// The highest block already trusted or verified in its store.
    Store,
    /// The latest block of the chain (fetched with `block_url(base, 0)`).
    LatestBlock,
}

/// A light client trusts the block in its store where there is one, and the
/// latest block of the chain otherwise.
pub fn trust_source(store_has_trusted_block: bool) -> (r: TrustSource)
    ensures
        r == (if store_has_trusted_block {
            TrustSource::Store
        } else {
            TrustSource::LatestBlock
        }),
{
    if store_has_trusted_block {
        TrustSource::Store
    } else {
        TrustSource::LatestBlock
    }
}

pub const HEIGHT_QUERY: &'static str = "?height=";
pub const BLOCK_ROUTE: &'static str = "/block";
pub const COMMIT_ROUTE: &'static str = "/commit";
pub const VALIDATORS_ROUTE: &'static str = "/validators";
pub const EVIDENCE_ROUTE: &'static str = "/broadcast_evidence?evidence=";

/// `?height={height}`; nothing for height 0, which asks for the latest block.
pub open spec fn height_param(height: u64) -> Seq<char> {
    if height == 0 {
        Seq::empty()
    } else {
        HEIGHT_QUERY@ + decimal(height as nat)
    }
}

/// The height to ask for: a given height, or 0 for the highest block.
pub open spec fn requested_height(at: Option<u64>) -> u64 {
    match at {
        Some(h) => h,
        None => 0,
    }
}

fn query_url(base: &str, route: &str, height: u64) -> (r: String)
    ensures
        r@ == base@ + route@ + height_param(height),
{
    let mut out = String::from_str(base);
    out.append(route);
    if height != 0 {
        out.append(HEIGHT_QUERY);
        push_decimal(&mut out, height);
    }
    assert(out@ =~= base@ + route@ + height_param(height));
    out
}

/// The height that a request for the light block `at` (`None`: the highest)
/// asks the node for.
pub fn height_to_fetch(at: Option<u64>) -> (r: u64)
    ensures
        r == requested_height(at),
{
    match at {
        Some(h) => h,
        None => 0,
    }
}

/// `{base}/block`, with `?height=` unless `height` is 0 (the latest block).
pub fn block_url(base: &str, height: u64) -> (r: String)
    ensures
        r@ == base@ + BLOCK_ROUTE@ + height_param(height),
{
    query_url(base, BLOCK_ROUTE, height)
}

/// `{base}/commit`, with `?height=` unless `height` is 0 (the latest commit).
pub fn commit_url(base: &str, height: u64) -> (r: String)
    ensures
        r@ == base@ + COMMIT_ROUTE@ + height_param(height),
{
    query_url(base, COMMIT_ROUTE, height)
}

/// `{base}/validators?height={height}`.
pub fn validators_url(base: &str, height: u64) -> (r: String)
    ensures
        r@ == base@ + VALIDATORS_ROUTE@ + HEIGHT_QUERY@ + decimal(height as nat),
{
    let mut out = String::from_str(base);
    out.append(VALIDATORS_ROUTE);
    out.append(HEIGHT_QUERY);
    push_decimal(&mut out, height);
    assert(out@ =~= base@ + VALIDATORS_ROUTE@ + HEIGHT_QUERY@ + decimal(height as nat));
    out
}

/// The two validator sets a light block at `height` carries: those of
/// `height` and of the next height.
pub fn validator_set_urls(base: &str, height: u64) -> (r: (String, String))
    requires
        height < u64::MAX,
    ensures
        r.0@ == base@ + VALIDATORS_ROUTE@ + HEIGHT_QUERY@ + decimal(height as nat),
        r.1@ == base@ + VALIDATORS_ROUTE@ + HEIGHT_QUERY@ + decimal((height + 1) as nat),
{
    (validators_url(base, height), validators_url(base, height + 1))
}

/// The validator sets of a light block come from the height its signed
/// header reports (whatever height was asked for: 0 asks for the latest), and
/// from the next height. There is none where the header's height is the last
/// one a `u64` holds.
pub fn header_validator_set_urls(base: &str, header_height: u64) -> (r: Option<(String, String)>)
    ensures
        r is None <==> header_height == u64::MAX,
        r matches Some(urls) ==> urls.0@ == base@ + VALIDATORS_ROUTE@ + HEIGHT_QUERY@ + decimal(
            header_height as nat,
        ) && urls.1@ == base@ + VALIDATORS_ROUTE@ + HEIGHT_QUERY@ + decimal(
            (header_height + 1) as nat,
        ),
{
    if header_height == u64::MAX {
        None
    } else {
        Some(validator_set_urls(base, header_height))
    }
}

pub const SYNCED: &'static str = "[info] synced to block ";
pub const SYNC_FAILED: &'static str = "[error] sync failed: ";

/// The log line of a light-client sync that reached `height`.
pub fn synced_message(height: u64) -> (r: String)
    ensures
        r@ == SYNCED@ + decimal(height as nat),
{
    let mut out = String::from_str(SYNCED);
    push_decimal(&mut out, height);
    out
}

/// The log line of a light-client sync that failed with `error`.
pub fn sync_failed_message(error: &str) -> (r: String)
    ensures
        r@ == SYNC_FAILED@ + error@,
{
    let mut out = String::from_str(SYNC_FAILED);
    out.append(error);
    out
}

/// `{base}/broadcast_evidence?evidence={evidence}`.
pub fn evidence_url(base: &str, evidence: &str) -> (r: String)
    ensures
        r@ == base@ + EVIDENCE_ROUTE@ + evidence@,
{
    let mut out = String::from_str(base);
    out.append(EVIDENCE_ROUTE);
    out.append(evidence);
    out
}

} // verus!
