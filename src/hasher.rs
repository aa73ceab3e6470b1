//! The streaming hash interface.
use crate::digest::Digest;
use vstd::prelude::*;

verus! {

/// A streaming hash algorithm whose digests are `N` bytes long.
///
/// A hasher is built fresh, fed any number of byte chunks in order, and
/// consumed by `sum`. Its result depends only on the concatenation of what
/// it was fed, never on where the chunk boundaries fell.
pub trait Hasher<const N: usize>: Sized {
    /// Whether the algorithm supports digests of `N` bytes.
    spec fn size_supported() -> bool;

    /// The bytes fed to this hasher so far, in order.
    spec fn written(&self) -> Seq<u8>;

    /// The digest the algorithm computes for `data`.
    spec fn hash_of(data: Seq<u8>) -> Seq<u8>;

    /// A hasher that has been fed nothing yet.
    fn default() -> (r: Self)
        requires
            Self::size_supported(),
        ensures
            r.written() == Seq::<u8>::empty(),
    ;

    /// Feeds `input` after what was fed before.
    fn write(&mut self, input: &[u8])
        ensures
            final(self).written() == old(self).written() + input@,
    ;

    /// Consumes the hasher and returns the digest of everything it was fed.
    fn sum(self) -> (r: Digest<N>)
        ensures
            r@ == Self::hash_of(self.written()),
            r@.len() == N,
    ;

    /// The digest of `input`, fed in one piece.
    fn digest(input: &[u8]) -> (r: Digest<N>)
        requires
            Self::size_supported(),
        ensures
            r@ == Self::hash_of(input@),
            r@.len() == N,
    {
        let mut h = Self::default();
        h.write(input);
        proof {
            assert(h.written() =~= input@);
        }
        h.sum()
    }
}

/// The bytes a hasher holds after it was fed `chunks` one at a time,
/// starting from `start`.
pub open spec fn fed(start: Seq<u8>, chunks: Seq<Seq<u8>>) -> Seq<u8>
    decreases chunks.len(),
{
    if chunks.len() == 0 {
        start
    } else {
        fed(start + chunks[0], chunks.drop_first())
    }
}

/// Feeding chunks one at a time appends their concatenation.
pub proof fn lemma_fed_appends(start: Seq<u8>, chunks: Seq<Seq<u8>>)
    ensures
        fed(start, chunks) == start + chunks.flatten(),
    decreases chunks.len(),
{
    if chunks.len() == 0 {
        assert(start + chunks.flatten() =~= start);
    } else {
        lemma_fed_appends(start + chunks[0], chunks.drop_first());
        assert((start + chunks[0]) + chunks.drop_first().flatten() =~= start + (chunks.first()
            + chunks.drop_first().flatten()));
    }
}

/// Streaming equivalence: a fresh hasher fed the chunks of any partition of
/// a byte sequence, one write per chunk, finalizes to the same digest as
/// one write of the whole sequence, which is also what `digest` returns.
pub proof fn streaming_equivalence<const N: usize, H: Hasher<N>>(chunks: Seq<Seq<u8>>)
    ensures
        fed(Seq::empty(), chunks) == chunks.flatten(),
        H::hash_of(fed(Seq::empty(), chunks)) == H::hash_of(chunks.flatten()),
{
    lemma_fed_appends(Seq::empty(), chunks);
    assert(Seq::<u8>::empty() + chunks.flatten() =~= chunks.flatten());
}

/// Determinism: two digests computed by the same algorithm over the same
/// bytes are byte for byte identical.
pub proof fn determinism<const N: usize, H: Hasher<N>>(d1: Digest<N>, d2: Digest<N>, input: Seq<u8>)
    requires
        d1@ == H::hash_of(input),
        d2@ == H::hash_of(input),
    ensures
        d1@ == d2@,
{
}

} // verus!
