//! Fixed-length digests.
use vstd::prelude::*;

verus! {

/// A fresh vector holding the same bytes as `s`.
fn copy_bytes(s: &[u8]) -> (r: Vec<u8>)
    ensures
        r@ == s@,
{
    let mut v: Vec<u8> = Vec::with_capacity(s.len());
    let mut i: usize = 0;
    while i < s.len()
        invariant
            i <= s@.len(),
            v@ == s@.subrange(0, i as int),
        decreases s@.len() - i,
    {
        v.push(s[i]);
        i += 1;
    }
    assert(v@ =~= s@);
    v
}

/// The finalized output of a hash computation: exactly `N` bytes.
#[derive(Debug)]
pub struct Digest<const N: usize> {
    bytes: Vec<u8>,
}

impl<const N: usize> View for Digest<N> {
    type V = Seq<u8>;

    closed spec fn view(&self) -> Seq<u8> {
        self.bytes@
    }
}

impl<const N: usize> Digest<N> {
    #[verifier::type_invariant]
    spec fn well_formed(&self) -> bool {
        self.bytes@.len() == N
    }

    /// Wraps bytes that already have the digest's length.
    pub fn new(bytes: Vec<u8>) -> (r: Self)
        requires
            bytes@.len() == N,
        ensures
            r@ == bytes@,
    {
        Digest { bytes }
    }

    /// Copies `bytes` into a digest; `None` exactly when the length is not `N`.
    pub fn from_slice(bytes: &[u8]) -> (r: Option<Self>)
        ensures
            r is Some <==> bytes@.len() == N,
            r matches Some(d) ==> d@ == bytes@,
    {
        if bytes.len() != N {
            return None;
        }
        Some(Digest { bytes: copy_bytes(bytes) })
    }

    /// The digest's bytes.
    pub fn as_bytes(&self) -> (r: &[u8])
        ensures
            r@ == self@,
            r@.len() == N,
    {
        proof {
            use_type_invariant(self);
        }
        self.bytes.as_slice()
    }
}

impl<const N: usize> Clone for Digest<N> {
    fn clone(&self) -> (r: Self)
        ensures
            r@ == self@,
    {
        Digest::new(copy_bytes(self.as_bytes()))
    }
}

impl<const N: usize> PartialEq for Digest<N> {
    fn eq(&self, other: &Self) -> (r: bool) {
        let a = self.as_bytes();
        let b = other.as_bytes();
        if a.len() != b.len() {
            return false;
        }
        let mut i: usize = 0;
        while i < a.len()
            invariant
                a@ == self@,
                b@ == other@,
                a@.len() == b@.len(),
                i <= a@.len(),
                a@.subrange(0, i as int) == b@.subrange(0, i as int),
            decreases a@.len() - i,
        {
            if a[i] != b[i] {
                assert(a@[i as int] != b@[i as int]);
                return false;
            }
            assert(a@.subrange(0, i + 1) =~= a@.subrange(0, i as int).push(a@[i as int]));
            assert(b@.subrange(0, i + 1) =~= b@.subrange(0, i as int).push(b@[i as int]));
            i += 1;
        }
        assert(a@ =~= a@.subrange(0, a@.len() as int));
        assert(b@ =~= b@.subrange(0, b@.len() as int));
        true
    }
}

impl<const N: usize> vstd::std_specs::cmp::PartialEqSpecImpl for Digest<N> {
    open spec fn obeys_eq_spec() -> bool {
        true
    }

    open spec fn eq_spec(&self, other: &Self) -> bool {
        self@ == other@
    }
}

impl<const N: usize> Eq for Digest<N> {

}

} // verus!
