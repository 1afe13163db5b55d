//! SS58 account addresses: the text under which a 32-byte account id is shown.

use sp_core::crypto::{AccountId32, Ss58AddressFormat, Ss58Codec};
use vstd::prelude::*;

verus! {

/// The SS58 text of a 32-byte account id under a network prefix: the base-58 form of
/// the prefix bytes, the id and a two-byte blake2 checksum.
pub uninterp spec fn ss58_address(account: Seq<u8>, prefix: u16) -> Seq<char>;

/// `Ss58Codec::to_ss58check_with_version` of sp-core on `AccountId32`, with the format
/// `Ss58AddressFormat::custom(prefix)`. Its text is named by `ss58_address`.
#[verifier::external_body]
fn ss58_check(account: &[u8], prefix: u16) -> (s: String)
    requires
        account@.len() == 32,
    ensures
        s@ == ss58_address(account@, prefix),
{
    let bytes: [u8; 32] = account.try_into().unwrap();
    AccountId32::from(bytes).to_ss58check_with_version(Ss58AddressFormat::custom(prefix))
}

/// The SS58 text of a 32-byte account id under `prefix`.
pub fn ss58_text(account: &[u8], prefix: u16) -> (s: String)
    requires
        account@.len() == 32,
    ensures
        s@ == ss58_address(account@, prefix),
{
    ss58_check(account, prefix)
}

} // verus!
