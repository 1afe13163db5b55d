//! Chain data as the dashboard shows it: nuclei, accounts, blocks and the node,
//! each built from the plain values read out of chain storage.

use crate::address::{ss58_address, ss58_text};
use crate::config::VERISENSE_PREFIX;
use crate::text::{
    byte_list, byte_list_string, decimal, decimal_string, display_name, hex_lower, hex_string,
    lemma_hex_lower_shape, name_text, prefixed_hex,
};
use vstd::utf8::{decode_utf8, valid_utf8};
use vstd::prelude::*;

verus! {

/// A nucleus as the dashboard shows it.
#[derive(Debug, PartialEq, Eq)]
pub struct NucleusInfo {
    pub id: String,
    pub name: String,
    pub manager: String,
    pub wasm_hash: String,
    pub wasm_version: u32,
    pub wasm_location: String,
    pub energy: u64,
    pub current_event: u64,
    pub root_state: String,
    pub capacity: u32,
}

/// An account's balance and nonce as the dashboard shows them.
#[derive(Debug, PartialEq, Eq)]
pub struct AccountInfo {
    pub address: String,
    pub balance: String,
    pub nonce: u32,
}

/// The head block as the dashboard shows it.
#[derive(Debug, PartialEq, Eq)]
pub struct BlockInfo {
    pub number: u32,
    pub hash: String,
    pub parent_hash: String,
    pub timestamp: u64,
}

/// The runtime version and block heights of the node.
#[derive(Debug, PartialEq, Eq)]
pub struct NodeInfo {
    pub spec_name: String,
    pub spec_version: String,
    pub best_block: u32,
    pub finalized_block: u32,
}

/// A nucleus record as chain storage holds it; the numeric fields are held at full
/// width and narrowed where they are shown.
#[derive(Debug, PartialEq, Eq)]
pub struct RawNucleus {
    pub name: Vec<u8>,
    pub manager: [u8; 32],
    pub wasm_hash: [u8; 32],
    pub wasm_version: u32,
    pub wasm_location: Option<Vec<u8>>,
    pub energy: u128,
    pub current_event: u128,
    pub root_state: [u8; 32],
    pub capacity: u128,
}

/// The account data of the system pallet that the dashboard reads.
#[derive(Debug, Clone, Copy, PartialEq, Eq)]
pub struct AccountBalance {
    pub free: u128,
    pub nonce: u32,
}

/// The id shown for a nucleus listed from storage: the SS58 address of the last
/// 32 bytes of its storage key, or the key's byte list when the key is shorter.
pub open spec fn key_id_text(key: Seq<u8>) -> Seq<char> {
    if key.len() >= 32 {
        ss58_address(key.subrange(key.len() - 32, key.len() as int), VERISENSE_PREFIX)
    } else {
        byte_list(key)
    }
}

/// How the optional wasm location is shown: its hexadecimal text, or nothing.
pub open spec fn location_text(location: Option<Vec<u8>>) -> Seq<char> {
    match location {
        Some(loc) => hex_lower(loc@),
        None => Seq::empty(),
    }
}

/// `info` shows the stored record `raw` under the id text `id`.
pub open spec fn shows_nucleus(info: NucleusInfo, id: Seq<char>, raw: RawNucleus) -> bool {
    &&& info.id@ == id
    &&& info.name@ == display_name(raw.name@)
    &&& info.manager@ == ss58_address(raw.manager@, VERISENSE_PREFIX)
    &&& info.wasm_hash@ == "0x"@ + hex_lower(raw.wasm_hash@)
    &&& info.wasm_version == raw.wasm_version
    &&& info.wasm_location@ == location_text(raw.wasm_location)
    &&& info.energy == raw.energy as u64
    &&& info.current_event == raw.current_event as u64
    &&& info.root_state@ == "0x"@ + hex_lower(raw.root_state@)
    &&& info.capacity == raw.capacity as u32
}

/// The id text of a nucleus listed from storage under `key`.
pub fn nucleus_id_from_key(key: &[u8]) -> (s: String)
    ensures
        s@ == key_id_text(key@),
        key@.len() >= 32 ==> s@ == ss58_address(
            key@.subrange(key@.len() - 32, key@.len() as int),
            VERISENSE_PREFIX,
        ),
        key@.len() < 32 ==> s@ == byte_list(key@),
{
    if key.len() >= 32 {
        let (_, tail) = key.split_at(key.len() - 32);
        ss58_text(tail, VERISENSE_PREFIX)
    } else {
        byte_list_string(key)
    }
}

/// The dashboard view of the stored record `raw`, shown under the id `id`.
pub fn nucleus_info(id: String, raw: &RawNucleus) -> (info: NucleusInfo)
    ensures
        shows_nucleus(info, id@, *raw),
        info.id@ == id@,
        info.manager@ == ss58_address(raw.manager@, VERISENSE_PREFIX),
        raw.wasm_location matches Some(loc) ==> info.wasm_location@ == hex_lower(loc@),
        raw.wasm_location is None ==> info.wasm_location@.len() == 0,
{
    let wasm_location = match &raw.wasm_location {
        Some(loc) => hex_string(loc.as_slice()),
        None => String::new(),
    };
    NucleusInfo {
        id,
        name: name_text(raw.name.as_slice()),
        manager: ss58_text(raw.manager.as_slice(), VERISENSE_PREFIX),
        wasm_hash: prefixed_hex(raw.wasm_hash.as_slice()),
        wasm_version: raw.wasm_version,
        wasm_location,
        energy: raw.energy as u64,
        current_event: raw.current_event as u64,
        root_state: prefixed_hex(raw.root_state.as_slice()),
        capacity: raw.capacity as u32,
    }
}

/// The dashboard view of a nucleus met while walking storage: `key` is its storage key.
pub fn listed_nucleus(key: &[u8], raw: &RawNucleus) -> (info: NucleusInfo)
    ensures
        shows_nucleus(info, key_id_text(key@), *raw),
        key@.len() >= 32 ==> info.id@ == ss58_address(
            key@.subrange(key@.len() - 32, key@.len() as int),
            VERISENSE_PREFIX,
        ),
{
    nucleus_info(nucleus_id_from_key(key), raw)
}

/// The dashboard view of the nucleus looked up under the address `id`; `None` when
/// storage holds no record for it.
pub fn nucleus_by_id(id: &str, fetched: Option<RawNucleus>) -> (r: Option<NucleusInfo>)
    ensures
        r is Some <==> fetched is Some,
        r matches Some(info) ==> shows_nucleus(info, id@, fetched->0),
{
    match fetched {
        Some(raw) => Some(nucleus_info(String::from_str(id), &raw)),
        None => None,
    }
}

/// The dashboard view of an account; an account storage does not hold shows a zero
/// balance and nonce.
pub fn account_info(address: &str, fetched: Option<AccountBalance>) -> (info: AccountInfo)
    ensures
        info.address@ == address@,
        info.balance@ == decimal(
            match fetched {
                Some(b) => b.free as nat,
                None => 0,
            },
        ),
        info.nonce == match fetched {
            Some(b) => b.nonce,
            None => 0,
        },
{
    match fetched {
        Some(b) => AccountInfo {
            address: String::from_str(address),
            balance: decimal_string(b.free),
            nonce: b.nonce,
        },
        None => AccountInfo {
            address: String::from_str(address),
            balance: decimal_string(0),
            nonce: 0,
        },
    }
}

/// The dashboard view of a block: hashes as `0x` and 64 hexadecimal digits.
pub fn block_info(number: u32, hash: &[u8; 32], parent_hash: &[u8; 32], timestamp: u64) -> (b:
    BlockInfo)
    ensures
        b.number == number,
        b.hash@ == "0x"@ + hex_lower(hash@),
        b.parent_hash@ == "0x"@ + hex_lower(parent_hash@),
        b.timestamp == timestamp,
{
    BlockInfo {
        number,
        hash: prefixed_hex(hash.as_slice()),
        parent_hash: prefixed_hex(parent_hash.as_slice()),
        timestamp,
    }
}

/// The node's runtime name and version, and its block heights.
pub fn node_info(spec_name: &str, spec_version: u32, best_block: u32, finalized_block: u32) -> (n:
    NodeInfo)
    ensures
        n.spec_name@ == spec_name@,
        n.spec_version@ == decimal(spec_version as nat),
        n.best_block == best_block,
        n.finalized_block == finalized_block,
{
    NodeInfo {
        spec_name: String::from_str(spec_name),
        spec_version: decimal_string(spec_version as u128),
        best_block,
        finalized_block,
    }
}

/// The total issuance as decimal text; `"0"` when storage holds none.
pub fn issuance_text(fetched: Option<u128>) -> (s: String)
    ensures
        s@ == decimal(
            match fetched {
                Some(n) => n as nat,
                None => 0,
            },
        ),
{
    match fetched {
        Some(n) => decimal_string(n),
        None => decimal_string(0),
    }
}

/// The validator counts `(total, active)`: the length of the session's validator set,
/// or zero when storage holds none; every validator in the set counts as active.
pub fn validator_counts(fetched_len: Option<usize>) -> (r: (u64, u64))
    ensures
        r.0 == match fetched_len {
            Some(n) => n as u64,
            None => 0,
        },
        r.1 == r.0,
{
    let total: u64 = match fetched_len {
        Some(n) => n as u64,
        None => 0,
    };
    (total, total)
}


/// Law: the id of a nucleus listed under a storage key that ends with a 32-byte
/// account id is the SS58 address of that id, whatever bytes come before it.
pub proof fn lemma_listed_id_is_key_tail(before: Seq<u8>, id: Seq<u8>)
    requires
        id.len() == 32,
    ensures
        key_id_text(before + id) == ss58_address(id, VERISENSE_PREFIX),
{
    let key = before + id;
    assert(key.subrange(key.len() - 32, key.len() as int) =~= id);
}

/// Law: every field of a shown nucleus, in terms of the stored record: the manager is
/// the SS58 address of the stored manager bytes as they are, the hashes are `0x` and
/// two hexadecimal digits per byte, the location is the hexadecimal text of every byte
/// of it, the counters are the stored values modulo the shown width, and the name is
/// the decoded text when the bytes are UTF-8.
pub proof fn lemma_shown_fields(info: NucleusInfo, id: Seq<char>, raw: RawNucleus)
    requires
        shows_nucleus(info, id, raw),
    ensures
        info.id@ == id,
        info.manager@ == ss58_address(raw.manager@, VERISENSE_PREFIX),
        info.wasm_hash@.len() == 66,
        info.wasm_hash@[0] == '0' && info.wasm_hash@[1] == 'x',
        info.wasm_hash@.subrange(2, 66) == hex_lower(raw.wasm_hash@),
        info.root_state@.len() == 66,
        info.root_state@.subrange(2, 66) == hex_lower(raw.root_state@),
        raw.wasm_location matches Some(loc) ==> info.wasm_location@ == hex_lower(loc@)
            && info.wasm_location@.len() == 2 * loc@.len(),
        raw.wasm_location is None ==> info.wasm_location@.len() == 0,
        info.energy == raw.energy % 0x1_0000_0000_0000_0000,
        info.current_event == raw.current_event % 0x1_0000_0000_0000_0000,
        info.capacity == raw.capacity % 0x1_0000_0000,
        info.wasm_version == raw.wasm_version,
        valid_utf8(raw.name@) ==> info.name@ == decode_utf8(raw.name@),
        !valid_utf8(raw.name@) ==> info.name@ == "Invalid UTF-8: "@ + byte_list(raw.name@),
{
    reveal_strlit("0x");
    lemma_hex_lower_shape(raw.wasm_hash@);
    lemma_hex_lower_shape(raw.root_state@);
    assert(info.wasm_hash@.subrange(2, 66) =~= hex_lower(raw.wasm_hash@));
    assert(info.root_state@.subrange(2, 66) =~= hex_lower(raw.root_state@));
    if let Some(loc) = raw.wasm_location {
        lemma_hex_lower_shape(loc@);
    }
    let e = raw.energy;
    let c = raw.current_event;
    let k = raw.capacity;
    assert(e as u64 == e % 0x1_0000_0000_0000_0000) by (bit_vector);
    assert(c as u64 == c % 0x1_0000_0000_0000_0000) by (bit_vector);
    assert(k as u32 == k % 0x1_0000_0000) by (bit_vector);
}

/// Law: a nucleus shown in the list under the id text of its storage key, and the same
/// record looked up under that id text, are shown alike, field for field.
pub proof fn lemma_lookup_shows_listed(
    listed: NucleusInfo,
    looked_up: NucleusInfo,
    key: Seq<u8>,
    id: Seq<char>,
    raw: RawNucleus,
)
    requires
        shows_nucleus(listed, key_id_text(key), raw),
        shows_nucleus(looked_up, id, raw),
        id == key_id_text(key),
    ensures
        listed.id@ == looked_up.id@,
        listed.name@ == looked_up.name@,
        listed.manager@ == looked_up.manager@,
        listed.wasm_hash@ == looked_up.wasm_hash@,
        listed.wasm_version == looked_up.wasm_version,
        listed.wasm_location@ == looked_up.wasm_location@,
        listed.energy == looked_up.energy,
        listed.current_event == looked_up.current_event,
        listed.root_state@ == looked_up.root_state@,
        listed.capacity == looked_up.capacity,
{
}

} // verus!
