//! Message types of the chain, following, and signing up at the faucet.
use vstd::prelude::*;
use vstd::string::*;

use crate::host::Host;
use crate::pages::ButtonType;
use crate::text::same_text;

verus! {

pub const MSG_TYPE_CREATE_POST: &'static str = "/blawgd.MsgCreatePost";
pub const MSG_TYPE_FOLLOW: &'static str = "/blawgd.MsgFollow";
pub const MSG_TYPE_STOP_FOLLOW: &'static str = "/blawgd.MsgStopFollow";
pub const MSG_TYPE_LIKE: &'static str = "/blawgd.MsgLikePost";
pub const MSG_TYPE_REPOST: &'static str = "/blawgd.MsgRepost";
pub const MSG_TYPE_UPDATE_ACCOUNT_INFO: &'static str = "/blawgd.MsgUpdateAccountInfo";

/// The derivation path of Cosmos accounts.
pub const COSMOS_DP: &'static str = "m/44'/118'/0'/0/0";

pub const ADDRESS_QUERY: &'static str = "/?address=";

/// Whether `address` is among the accounts in `followings`.
pub fn follows(followings: &Vec<String>, address: &str) -> (r: bool)
    ensures
        r == exists|i: int| 0 <= i < followings@.len() && #[trigger] followings@[i]@ == address@,
{
    let mut found = false;
    let mut i: usize = 0;
    while i < followings.len()
        invariant
            i <= followings@.len(),
            found == exists|j: int| 0 <= j < i && #[trigger] followings@[j]@ == address@,
        decreases followings@.len() - i,
    {
        if same_text(followings[i].as_str(), address) {
            found = true;
        }
        i = i + 1;
    }
    found
}

/// The message that a click on the follow toggle of a profile sends: follow
/// where the button offers to follow, stop following otherwise.
pub fn follow_toggle_msg_type(button: ButtonType) -> (r: &'static str)
    ensures
        r@ == (if button is Follow {
            MSG_TYPE_FOLLOW@
        } else {
            MSG_TYPE_STOP_FOLLOW@
        }),
{
    match button {
        ButtonType::Follow => MSG_TYPE_FOLLOW,
        _ => MSG_TYPE_STOP_FOLLOW,
    }
}

/// The faucet request that funds `address`: `{faucet endpoint}/?address={address}`.
pub fn faucet_request_url(host: &Host, address: &str) -> (r: String)
    ensures
        r@ == host@.faucet_endpoint() + ADDRESS_QUERY@ + address@,
{
    let mut out = host.faucet_endpoint();
    out.append(ADDRESS_QUERY);
    out.append(address);
    out
}

} // verus!
