//! A running SHA-256 digest over the bytes of a transfer.

use sha2::Digest;
use vstd::prelude::*;

verus! {

/// A SHA-256 computation in progress. Trusted: the state inside is a
/// `sha2::Sha256`, which the library never looks into; it follows the
/// computation through `absorbed`.
#[verifier::external_body]
pub struct Hasher {
    inner: sha2::Sha256,
}

/// Every byte that `sha2::Digest::update` has fed to the hasher so far,
/// in the order it was fed.
pub uninterp spec fn absorbed(hasher: Hasher) -> Seq<u8>;

/// The SHA-256 digest of a byte sequence: what `sha2::Digest::finalize`
/// returns once exactly these bytes have been fed.
pub uninterp spec fn sha256(data: Seq<u8>) -> Seq<u8>;

impl Hasher {
    /// Trusted: `sha2::Sha256::new` starts a computation that has been fed
    /// nothing.
    #[verifier::external_body]
    pub(crate) fn new() -> (hasher: Hasher)
        ensures
            absorbed(hasher) == Seq::<u8>::empty(),
    {
        Hasher { inner: sha2::Sha256::new() }
    }

    /// Trusted: `sha2::Digest::update` feeds `data` after everything fed
    /// before it; feeding in pieces is the same as feeding the whole.
    #[verifier::external_body]
    pub(crate) fn update(&mut self, data: &[u8])
        ensures
            absorbed(*final(self)) == absorbed(*old(self)) + data@,
    {
        self.inner.update(data)
    }

    /// Trusted: `sha2::Digest::finalize` returns the SHA-256 digest of
    /// everything fed, a function of those bytes alone.
    #[verifier::external_body]
    pub(crate) fn finalize(self) -> (digest: Vec<u8>)
        ensures
            digest@ == sha256(absorbed(self)),
    {
        self.inner.finalize().to_vec()
    }
}

} // verus!
