use vstd::prelude::*;

verus! {

/// The Keccak-256 digest of `data`.
pub uninterp spec fn keccak256_digest(data: Seq<u8>) -> Seq<u8>;

/// Whether `signature` is a valid Ed25519 signature of `message` under the
/// public key `key`.
pub uninterp spec fn ed25519_accepts(key: Seq<u8>, message: Seq<u8>, signature: Seq<u8>) -> bool;

/// Calls `multiversx_chain_vm::crypto_functions::keccak256`, the digest that
/// the MultiversX VM computes for a contract. Claimed: the result is the
/// named digest of the input, and it is 32 bytes long (the function returns
/// a `[u8; 32]`).
#[verifier::external_body]
pub(crate) fn keccak256(data: &[u8]) -> (r: Vec<u8>)
    ensures
        r@ == keccak256_digest(data@),
        r@.len() == 32,
{
    multiversx_sc_scenario::multiversx_chain_vm::crypto_functions::keccak256(data).to_vec()
}

/// Calls `multiversx_chain_vm::crypto_functions::verify_ed25519`, the check
/// behind the VM's signature hook. Claimed: the answer is the named
/// predicate of the three inputs, and it is `false` when the key is not 32
/// bytes long or the signature is not 64 bytes long (the function returns
/// `false` before verifying in those cases).
#[verifier::external_body]
pub(crate) fn verify_ed25519(key: &[u8], message: &[u8], signature: &[u8]) -> (r: bool)
    ensures
        r == ed25519_accepts(key@, message@, signature@),
        key@.len() != 32 || signature@.len() != 64 ==> !r,
{
    multiversx_sc_scenario::multiversx_chain_vm::crypto_functions::verify_ed25519(key, message, signature)
}

} // verus!
