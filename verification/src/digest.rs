//! Streaming content digest for the large-file externalizer. The hash
//! itself is the outside crate's work; the library tracks, as ghost state,
//! exactly which bytes were fed in, so that callers' contracts can tie the
//! final digest to the file content they streamed.

use vstd::prelude::*;
use sha2::Digest;

verus! {

/// Relied-on outside type: `sha2::Sha256`, the incremental hash state.
#[verifier::external_type_specification]
#[verifier::external_body]
pub struct ExSha256(sha2::Sha256);

/// The digest that `sha2::Sha256::finalize` produces for a given byte
/// sequence. It depends on the absorbed bytes alone.
pub uninterp spec fn sha256_of(data: Seq<u8>) -> Seq<u8>;

/// An incremental digest together with the bytes absorbed so far.
pub struct Sha256Stream {
    inner: sha2::Sha256,
    fed: Ghost<Seq<u8>>,
}

/// Relies on `sha2::Sha256::new`: a fresh hash state has absorbed nothing.
#[verifier::external_body]
fn sha256_new() -> (r: sha2::Sha256) {
    sha2::Sha256::new()
}

impl Sha256Stream {
    /// The bytes this digest has absorbed so far.
    pub closed spec fn bytes_fed(self) -> Seq<u8> {
        self.fed@
    }

    /// A fresh digest that has absorbed nothing.
    pub fn new() -> (r: Self)
        ensures
            r.bytes_fed() == Seq::<u8>::empty(),
    {
        Sha256Stream { inner: sha256_new(), fed: Ghost(Seq::empty()) }
    }

    /// Relies on `sha2::Sha256::update`: absorbing a chunk appends it to the
    /// absorbed bytes.
    #[verifier::external_body]
    pub fn update(&mut self, chunk: &[u8])
        ensures
            final(self).bytes_fed() == old(self).bytes_fed() + chunk@,
    {
        self.inner.update(chunk);
    }

    /// Relies on `sha2::Sha256::finalize`: the digest is a function of the
    /// absorbed bytes alone, and is 32 bytes long.
    #[verifier::external_body]
    pub fn finalize_bytes(self) -> (r: Vec<u8>)
        ensures
            r@ == sha256_of(self.bytes_fed()),
            r@.len() == 32,
    {
        self.inner.finalize().to_vec()
    }

    /// Finish the digest and render it as lowercase hex.
    pub fn finalize_hex(self) -> (r: String)
        ensures
            r@ == crate::text::hex_str_of(sha256_of(self.bytes_fed())),
            r@.len() == 64,
    {
        let ghost fed = self.bytes_fed();
        let bytes = self.finalize_bytes();
        let hex = crate::text::to_hex_lower(&bytes);
        proof {
            crate::text::lemma_hex_str_len(bytes@);
        }
        hex
    }
}

} // verus!
