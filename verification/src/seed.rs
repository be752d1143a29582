//! The seed of a world.

use vstd::prelude::*;

verus! {

/// The number from which a world's density field is derived.
pub struct Seed(u32);

/// `rand::random::<u32>()`: a number drawn from the thread's generator.
/// Nothing is known of it but its type.
#[verifier::external_body]
fn random_u32() -> u32 {
    rand::random()
}

impl Seed {
    /// The number that the seed holds.
    pub closed spec fn spec_get(&self) -> u32 {
        self.0
    }

    pub fn new(seed: u32) -> (s: Self)
        ensures
            s.spec_get() == seed,
    {
        Self(seed)
    }

    /// A seed drawn at random.
    pub fn random() -> Self {
        Seed::new(random_u32())
    }

    #[verifier::when_used_as_spec(spec_get)]
    pub fn get(&self) -> (seed: u32)
        ensures
            seed == self.spec_get(),
    {
        self.0
    }
}

} // verus!
