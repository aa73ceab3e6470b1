//! BLAKE2b behind the `Hasher` interface, at any output size from 1 to 64
//! bytes; 32 and 64 have names of their own.
use crate::digest::Digest;
use crate::hasher::Hasher;
use blake2b_simd::State;
use vstd::prelude::*;

verus! {

/// The largest output size BLAKE2b offers, in bytes.
pub const MAX_HASH_LENGTH: usize = 64;

#[verifier::external_type_specification]
#[verifier::external_body]
pub struct ExState(blake2b_simd::State);

/// The bytes fed to a BLAKE2b state so far, in order.
pub uninterp spec fn state_input(s: State) -> Seq<u8>;

/// The output length, in bytes, that a BLAKE2b state was configured with.
pub uninterp spec fn state_hash_length(s: State) -> nat;

/// The unkeyed, unsalted BLAKE2b digest of `len` bytes over `data`.
pub uninterp spec fn blake2b(len: nat, data: Seq<u8>) -> Seq<u8>;

/// Relies on blake2b_simd's `Params::new`, `Params::hash_length` and
/// `Params::to_state`: default parameters with the output length set to
/// `len`, turned into a state that has been fed nothing. `hash_length`
/// panics outside 1..=64, hence the precondition.
#[verifier::external_body]
fn new_state(len: usize) -> (r: State)
    requires
        1 <= len <= MAX_HASH_LENGTH,
    ensures
        state_input(r) == Seq::<u8>::empty(),
        state_hash_length(r) == len,
{
    let mut params = blake2b_simd::Params::new();
    params.hash_length(len);
    params.to_state()
}

/// Relies on blake2b_simd's `State::update`: appends `input` to what the
/// state was fed, and leaves its output length alone. It only buffers and
/// compresses, with in-bounds slicing and wrapping counters, so it does not
/// unwind.
#[verifier::external_body]
fn update_state(s: &mut State, input: &[u8])
    ensures
        state_input(*final(s)) == state_input(*old(s)) + input@,
        state_hash_length(*final(s)) == state_hash_length(*old(s)),
    no_unwind
{
    s.update(input);
}

/// Relies on blake2b_simd's `State::finalize` and `Hash::as_bytes`: the
/// digest of what the state was fed, as many bytes as its output length.
#[verifier::external_body]
fn finalize_state(s: &State) -> (r: Vec<u8>)
    ensures
        r@ == blake2b(state_hash_length(*s), state_input(*s)),
        r@.len() == state_hash_length(*s),
{
    s.finalize().as_bytes().to_vec()
}

/// A BLAKE2b hasher producing `N`-byte digests.
pub struct Blake2bHasher<const N: usize> {
    state: State,
}

/// BLAKE2b with 32-byte (256-bit) digests.
pub type Blake2b256 = Blake2bHasher<32>;

/// BLAKE2b with 64-byte (512-bit) digests.
pub type Blake2b512 = Blake2bHasher<64>;

impl<const N: usize> Blake2bHasher<N> {
    #[verifier::type_invariant]
    spec fn well_formed(&self) -> bool {
        state_hash_length(self.state) == N
    }

    /// The bytes this hasher has been fed so far.
    pub closed spec fn input(&self) -> Seq<u8> {
        state_input(self.state)
    }
}

impl<const N: usize> Hasher<N> for Blake2bHasher<N> {
    open spec fn size_supported() -> bool {
        1 <= N <= MAX_HASH_LENGTH
    }

    open spec fn written(&self) -> Seq<u8> {
        self.input()
    }

    open spec fn hash_of(data: Seq<u8>) -> Seq<u8> {
        blake2b(N as nat, data)
    }

    fn default() -> (r: Self) {
        let r = Blake2bHasher { state: new_state(N) };
        assert(r.written() == r.input());
        r
    }

    fn write(&mut self, input: &[u8]) {
        proof {
            use_type_invariant(&*self);
        }
        update_state(&mut self.state, input);
    }

    fn sum(self) -> (r: Digest<N>) {
        proof {
            use_type_invariant(&self);
        }
        Digest::new(finalize_state(&self.state))
    }
}

} // verus!
