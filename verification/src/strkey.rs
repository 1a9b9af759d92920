//! The account identity text the transport's account lookup needs: the
//! strkey ("G...") form of the source account's ed25519 public key.

use vstd::prelude::*;

verus! {

/// The strkey text of an ed25519 public key, as `hcnet_strkey` encodes
/// it: a version byte, the key bytes and a checksum, base-32 encoded. A
/// function of the 32 key bytes alone.
pub uninterp spec fn strkey_of(pk: Seq<u8>) -> Seq<char>;

/// Relies on `hcnet_strkey::ed25519::PublicKey::to_string`: the strkey
/// text, computed from the key bytes alone (version byte, payload and
/// CRC checksum, base-32 encoded).
#[verifier::external_body]
fn encode_public_key(pk: &[u8; 32]) -> (r: String)
    ensures
        r@ == strkey_of(pk@),
{
    hcnet_strkey::ed25519::PublicKey(*pk).to_string()
}

/// The identity text to hand the transport's account lookup for a source
/// account: the public key's strkey form.
pub fn account_lookup_id(source_account: &[u8; 32]) -> (r: String)
    ensures
        r@ == strkey_of(source_account@),
{
    encode_public_key(source_account)
}

} // verus!
