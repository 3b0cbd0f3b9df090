use std::collections::hash_map::DefaultHasher;
use std::hash::Hasher;
use vstd::prelude::*;
use vstd::std_specs::hash::DefaultHasherAdditionalSpecFns;

verus! {

/// A state machine, generic over the state and transition types of a
/// concrete domain. Its one operation is a pure, total function from a
/// state and a transition to the next state: no storage, no side effects,
/// no error channel.
pub trait StateMachine {
    /// The states that can be occupied by this machine.
    type State: View;

    /// The transitions that can be made between states.
    type Transition: View;

    /// The transition table itself, stated over the abstract values of the
    /// state and transition types: exactly what `next_state` returns.
    spec fn spec_next(
        state: <Self::State as View>::V,
        transition: <Self::Transition as View>::V,
    ) -> <Self::State as View>::V;

    /// Calculate the resulting state when this state undergoes the given
    /// transition.
    fn next_state(starting_state: &Self::State, t: &Self::Transition) -> (next: Self::State)
        ensures
            next@ == Self::spec_next(starting_state@, t@),
    ;
}

/// A value the hashing helper can digest. Hashing a value means feeding a
/// sequence of byte writes to the process-wide default hasher; the writes,
/// and hence the digest, are a pure function of the value.
pub trait Hashable {
    /// The byte writes this value feeds to a hasher, in order.
    spec fn hash_writes(&self) -> Seq<Seq<u8>>;

    /// Feed this value's bytes to `hasher`.
    fn feed(&self, hasher: &mut DefaultHasher)
        ensures
            final(hasher)@ == old(hasher)@ + self.hash_writes(),
    ;
}

/// The byte writes that hashing an ordered sequence of values performs:
/// each element's writes in turn, first element first.
pub open spec fn writes_of<T: Hashable>(s: Seq<T>) -> Seq<Seq<u8>>
    decreases s.len(),
{
    if s.len() == 0 {
        Seq::empty()
    } else {
        writes_of(s.drop_last()) + s.last().hash_writes()
    }
}

/// The digest that `hash` returns for a value.
pub open spec fn digest_of<T: Hashable>(t: T) -> u64 {
    DefaultHasher::spec_finish(t.hash_writes())
}

/// The digest of an ordered sequence of values: what `hash` returns for a
/// vector holding that sequence.
pub open spec fn seq_digest<T: Hashable>(keys: Seq<T>) -> u64 {
    DefaultHasher::spec_finish(writes_of(keys))
}

/// A simple helper function to do some hashing: a deterministic,
/// order-sensitive digest of its argument, a pure function of the byte
/// writes the argument performs.
pub fn hash<T: Hashable>(t: &T) -> (digest: u64)
    ensures
        digest == digest_of(*t),
{
    let mut hasher = DefaultHasher::new();
    t.feed(&mut hasher);
    proof {
        assert(hasher@ =~= t.hash_writes());
    }
    hasher.finish()
}

/// Law: the digest is deterministic. It depends on nothing but the byte
/// writes of the hashed value, so values with equal contents always hash
/// alike, in any two calls.
pub proof fn lemma_digest_deterministic<T: Hashable>(a: T, b: T)
    requires
        a.hash_writes() == b.hash_writes(),
    ensures
        digest_of(a) == digest_of(b),
{
}

/// A 64-bit number split into its eight bytes, least significant first.
pub open spec fn u64_le_bytes(x: u64) -> Seq<u8> {
    seq![
        (x % 0x100) as u8,
        ((x / 0x100) % 0x100) as u8,
        ((x / 0x10000) % 0x100) as u8,
        ((x / 0x1000000) % 0x100) as u8,
        ((x / 0x100000000) % 0x100) as u8,
        ((x / 0x10000000000) % 0x100) as u8,
        ((x / 0x1000000000000) % 0x100) as u8,
        ((x / 0x100000000000000) % 0x100) as u8,
    ]
}

impl Hashable for u64 {
    /// A number is hashed as a single write of its bytes, least
    /// significant first.
    open spec fn hash_writes(&self) -> Seq<Seq<u8>> {
        seq![u64_le_bytes(*self)]
    }

    fn feed(&self, hasher: &mut DefaultHasher) {
        let x: u64 = *self;
        let mut bytes: Vec<u8> = Vec::new();
        bytes.push((x % 0x100) as u8);
        bytes.push(((x / 0x100) % 0x100) as u8);
        bytes.push(((x / 0x10000) % 0x100) as u8);
        bytes.push(((x / 0x1000000) % 0x100) as u8);
        bytes.push(((x / 0x100000000) % 0x100) as u8);
        bytes.push(((x / 0x10000000000) % 0x100) as u8);
        bytes.push(((x / 0x1000000000000) % 0x100) as u8);
        bytes.push(((x / 0x100000000000000) % 0x100) as u8);
        hasher.write(bytes.as_slice());
        proof {
            assert(bytes@ =~= u64_le_bytes(x));
            assert(hasher@ =~= old(hasher)@ + self.hash_writes());
        }
    }
}

impl<T: Hashable> Hashable for Vec<T> {
    /// A vector's writes are its elements' writes, in order.
    open spec fn hash_writes(&self) -> Seq<Seq<u8>> {
        writes_of(self@)
    }

    fn feed(&self, hasher: &mut DefaultHasher) {
        let ghost orig: Seq<Seq<u8>> = hasher@;
        let mut i: usize = 0;
        while i < self.len()
            invariant
                i <= self.len(),
                hasher@ == orig + writes_of(self@.take(i as int)),
            decreases self.len() - i,
        {
            let ghost prefix = self@.take(i as int);
            self[i].feed(hasher);
            proof {
                assert(self@.take(i as int + 1) =~= prefix.push(self@[i as int]));
                assert(prefix.push(self@[i as int]).drop_last() =~= prefix);
                assert(hasher@ =~= orig + writes_of(self@.take(i as int + 1)));
            }
            i = i + 1;
        }
        proof {
            assert(self@.take(self.len() as int) =~= self@);
        }
    }
}

} // verus!
