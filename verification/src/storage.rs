//! What the client keeps in the browser's local storage, and the decisions
//! it takes on what it reads back from there.
use vstd::prelude::*;

verus! {

/// The signed-in account: its mnemonic and its address.
pub struct ApplicationData {
    pub mnemonic: String,
    pub address: String,
}

/// The page of a paged list that is shown.
pub struct State {
    pub page: i32,
}

pub const APP_DATA: &'static str = "app_data";
pub const SHOULD_VERIFY: &'static str = "should_verify";
pub const PEER_ID: &'static str = "peer_id";
pub const LAST_LC_SYNC: &'static str = "last_lc_sync";

/// A node id as the light client knows its peers.
pub type PeerId = tendermint::node::Id;

#[verifier::external_type_specification]
#[verifier::external_body]
pub struct ExNodeId(tendermint::node::Id);

pub open spec fn is_upper_hex(c: char) -> bool {
    ('0' <= c && c <= '9') || ('A' <= c && c <= 'F')
}

pub open spec fn is_lower_hex(c: char) -> bool {
    ('0' <= c && c <= '9') || ('a' <= c && c <= 'f')
}

/// The text of a node id: 40 hexadecimal digits (20 bytes), all in upper case
/// or all in lower case.
pub open spec fn is_node_id_text(s: Seq<char>) -> bool {
    &&& s.len() == 40
    &&& (forall|i: int| 0 <= i < s.len() ==> is_upper_hex(#[trigger] s[i])) || (forall|i: int|
        0 <= i < s.len() ==> is_lower_hex(#[trigger] s[i]))
}

/// The value of a hexadecimal digit, in either case.
pub open spec fn hex_value(c: char) -> int {
    if '0' <= c && c <= '9' {
        c as int - '0' as int
    } else if 'a' <= c && c <= 'f' {
        c as int - 'a' as int + 10
    } else {
        c as int - 'A' as int + 10
    }
}

/// The bytes that a text of hexadecimal digits writes, two digits a byte, the
/// high half first.
pub open spec fn hex_bytes(s: Seq<char>) -> Seq<u8> {
    Seq::new(s.len() / 2, |i: int| (hex_value(s[2 * i]) * 16 + hex_value(s[2 * i + 1])) as u8)
}

/// The id of a node: 20 bytes.
pub struct NodeId {
    bytes: Vec<u8>,
}

impl View for NodeId {
    type V = Seq<u8>;

    closed spec fn view(&self) -> Seq<u8> {
        self.bytes@
    }
}

/// The id that `tendermint::node::Id::new` builds from 20 bytes.
pub uninterp spec fn tendermint_id_of(bytes: Seq<u8>) -> tendermint::node::Id;

/// `tendermint::node::Id::new`, which keeps the 20 bytes it is given: the
/// result is the one id that those bytes make. What the opaque id holds inside
/// is not stated beyond that.
#[verifier::external_body]
fn tendermint_node_id(bytes: &Vec<u8>) -> (r: tendermint::node::Id)
    requires
        bytes@.len() == 20,
    ensures
        r == tendermint_id_of(bytes@),
{
    let mut array = [0u8; 20];
    array.copy_from_slice(bytes.as_slice());
    tendermint::node::Id::new(array)
}

impl NodeId {
    #[verifier::type_invariant]
    closed spec fn inv(self) -> bool {
        self.bytes@.len() == 20
    }

    /// The id has 20 bytes.
    pub fn bytes(&self) -> (r: &Vec<u8>)
        ensures
            r@ == self@,
            r@.len() == 20,
    {
        proof {
            use_type_invariant(self);
        }
        &self.bytes
    }

    /// The same id as the light client names its peers, built from these
    /// 20 bytes.
    pub fn peer_id(&self) -> (r: PeerId)
        ensures
            r == tendermint_id_of(self@),
    {
        proof {
            use_type_invariant(self);
        }
        tendermint_node_id(&self.bytes)
    }
}

/// Whether every character of `s` is a hexadecimal digit of the given case.
fn all_hex_of_case(s: &str, upper: bool) -> (r: bool)
    ensures
        r == (forall|i: int|
            0 <= i < s@.len() ==> if upper {
                is_upper_hex(#[trigger] s@[i])
            } else {
                is_lower_hex(s@[i])
            }),
{
    let n = s.unicode_len();
    let mut i: usize = 0;
    while i < n
        invariant
            n == s@.len(),
            i <= n,
            forall|j: int|
                0 <= j < i ==> if upper {
                    is_upper_hex(#[trigger] s@[j])
                } else {
                    is_lower_hex(s@[j])
                },
        decreases n - i,
    {
        let c = s.get_char(i);
        let digit = '0' <= c && c <= '9';
        let ok = if upper {
            digit || ('A' <= c && c <= 'F')
        } else {
            digit || ('a' <= c && c <= 'f')
        };
        if !ok {
            return false;
        }
        i = i + 1;
    }
    true
}

fn hex_digit(c: char) -> (r: u8)
    requires
        is_upper_hex(c) || is_lower_hex(c),
    ensures
        r == hex_value(c),
        r < 16,
{
    if '0' <= c && c <= '9' {
        (c as u32 - '0' as u32) as u8
    } else if 'a' <= c && c <= 'f' {
        (c as u32 - 'a' as u32 + 10) as u8
    } else {
        (c as u32 - 'A' as u32 + 10) as u8
    }
}

/// Reads a node id from its text.
fn decode_node_id(text: &str) -> (r: Option<NodeId>)
    ensures
        r.is_some() == is_node_id_text(text@),
        r matches Some(id) ==> id@ == hex_bytes(text@),
{
    if text.unicode_len() != 40 {
        return None;
    }
    if !all_hex_of_case(text, true) && !all_hex_of_case(text, false) {
        return None;
    }
    let ghost s = text@;
    assert(forall|k: int| 0 <= k < 40 ==> is_upper_hex(#[trigger] s[k]) || is_lower_hex(s[k]));
    let mut bytes: Vec<u8> = Vec::new();
    let mut i: usize = 0;
    while i < 20
        invariant
            s == text@,
            s.len() == 40,
            forall|k: int| 0 <= k < 40 ==> is_upper_hex(#[trigger] s[k]) || is_lower_hex(s[k]),
            i <= 20,
            bytes@.len() == i,
            forall|j: int| 0 <= j < i ==> #[trigger] bytes@[j] == hex_bytes(s)[j],
        decreases 20 - i,
    {
        let high = hex_digit(text.get_char(2 * i));
        let low = hex_digit(text.get_char(2 * i + 1));
        let b: u8 = high * 16 + low;
        bytes.push(b);
        assert(hex_bytes(s)[i as int] == (hex_value(s[2 * i]) * 16 + hex_value(s[2 * i + 1])) as u8);
        i = i + 1;
    }
    assert(bytes@ =~= hex_bytes(s));
    Some(NodeId { bytes })
}

/// Why a stored peer id cannot be used.
#[derive(Clone, Copy, Debug, PartialEq, Eq, Structural)]
pub enum PeerIdError {
    /// The text is not 40 hex digits of one case.
    Malformed,
}

/// What `should_verify` answers, and what it writes back (nothing where
/// nothing was stored).
pub open spec fn should_verify_spec(stored: Option<bool>) -> (bool, Option<bool>) {
    match stored {
        Some(b) => (b, Some(true)),
        None => (true, None),
    }
}

/// The browser's local storage, as the client uses it.
#[derive(Clone, Copy)]
pub struct Store;

impl Store {
    /// The time of the last light-client sync, given what storage holds under
    /// `LAST_LC_SYNC` (`None` where nothing readable is stored): never synced
    /// counts as time 0.
    pub fn last_lc_sync_from(&self, stored: Option<i64>) -> (r: i64)
        ensures
            r == match stored {
                Some(t) => t,
                None => 0,
            },
    {
        match stored {
            Some(t) => t,
            None => 0,
        }
    }

    /// Whether responses are to be verified, given what storage holds under
    /// `SHOULD_VERIFY`: verify unless a `false` was stored. A stored answer is
    /// used once: `true` is written back in its place.
    pub fn should_verify_from(&self, stored: Option<bool>) -> (r: (bool, Option<bool>))
        ensures
            r == should_verify_spec(stored),
    {
        match stored {
            Some(b) => (b, Some(true)),
            None => (true, None),
        }
    }

    /// The peer id written in `text` (as stored under `PEER_ID`, or as the
    /// node reported it): 40 hex digits of one case, read two to a byte. It is
    /// read just as `tendermint::node::Id::from_str` reads it.
    pub fn peer_id_from(&self, text: &str) -> (r: Result<NodeId, PeerIdError>)
        ensures
            r.is_ok() == is_node_id_text(text@),
            r matches Ok(id) ==> id@ == hex_bytes(text@),
    {
        match decode_node_id(text) {
            Some(id) => Ok(id),
            None => Err(PeerIdError::Malformed),
        }
    }
}

/// Skipping verification holds for one answer only: whatever storage held, the
/// answer after the next one is to verify.
pub proof fn law_skip_verification_once(stored: Option<bool>)
    ensures
        ({
            let written = should_verify_spec(stored).1;
            let next = match written {
                Some(w) => Some(w),
                None => stored,
            };
            should_verify_spec(next).0
        }),
{
}

} // verus!
