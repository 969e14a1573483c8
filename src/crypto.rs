use vstd::prelude::*;

verus! {

/// A 20-byte account address.
#[derive(Clone, Copy, Debug)]
pub struct Address {
    pub bytes: [u8; 20],
}

/// A recoverable signature in its 65-byte form: `r`, `s`, then `v`.
#[derive(Clone, Copy, Debug)]
pub struct Signature {
    pub bytes: [u8; 65],
}

impl Address {
    pub fn from_bytes(bytes: [u8; 20]) -> (r: Address)
        ensures
            r.bytes@ == bytes@,
    {
        Address { bytes }
    }

    /// Byte-wise equality.
    pub fn same(&self, other: &Address) -> (r: bool)
        ensures
            r == (self.bytes@ == other.bytes@),
    {
        let mut i: usize = 0;
        while i < 20
            invariant
                0 <= i <= 20,
                forall|j: int| 0 <= j < i ==> self.bytes@[j] == other.bytes@[j],
            decreases 20 - i,
        {
            if self.bytes[i] != other.bytes[i] {
                return false;
            }
            i = i + 1;
        }
        assert(self.bytes@ =~= other.bytes@);
        true
    }
}

impl Signature {
    pub fn from_bytes(bytes: [u8; 65]) -> (r: Signature)
        ensures
            r.bytes@ == bytes@,
    {
        Signature { bytes }
    }
}

/// The digest that Ethereum signs for a message (a Keccak-256 hash of the
/// salted Keccak-256 hash of the data).
pub uninterp spec fn eth_msg_hash(data: Seq<u8>) -> Seq<u8>;

/// The address recovered from a 65-byte signature over a 32-byte digest, if
/// recovery succeeds.
pub uninterp spec fn recovered_signer(sig: Seq<u8>, digest: Seq<u8>) -> Option<Seq<u8>>;

/// Relies on clarity's `utils::get_ethereum_msg_hash`: a function of the
/// data alone, and a 32-byte Keccak-256 digest.
#[verifier::external_body]
pub(crate) fn ethereum_msg_hash(data: &Vec<u8>) -> (r: Vec<u8>)
    ensures
        r@ == eth_msg_hash(data@),
        r@.len() == 32,
{
    clarity::utils::get_ethereum_msg_hash(data)
}

/// Relies on clarity's `Signature::from_bytes` (which accepts any 65 bytes)
/// and `Signature::recover`: the signer's address, or `None` where recovery
/// fails. `recover` copies the digest into a 32-byte buffer, hence the
/// length demand.
#[verifier::external_body]
pub(crate) fn recover_signer(sig: &Signature, digest: &Vec<u8>) -> (r: Option<Address>)
    requires
        digest@.len() == 32,
    ensures
        r is Some <==> recovered_signer(sig.bytes@, digest@) is Some,
        r matches Some(a) ==> recovered_signer(sig.bytes@, digest@) == Some(a.bytes@),
{
    match clarity::Signature::from_bytes(&sig.bytes) {
        Ok(s) => match s.recover(digest) {
            Ok(a) => Some(Address { bytes: a.into() }),
            Err(_) => None,
        },
        Err(_) => None,
    }
}

/// Whether `sig` is `signer`'s signature over the Ethereum digest of `data`.
pub open spec fn signed_by(sig: Signature, data: Seq<u8>, signer: Address) -> bool {
    recovered_signer(sig.bytes@, eth_msg_hash(data)) == Some(signer.bytes@)
}

/// Checks that `sig` is `signer`'s signature over the Ethereum digest of
/// `data`.
pub fn verify_signature(sig: &Signature, data: &Vec<u8>, signer: &Address) -> (r: bool)
    ensures
        r == signed_by(*sig, data@, *signer),
{
    let digest = ethereum_msg_hash(data);
    match recover_signer(sig, &digest) {
        Some(a) => a.same(signer),
        None => false,
    }
}

} // verus!
