use rand::rngs::StdRng;
use rand::seq::SliceRandom;
use rand::Rng;
use rand::SeedableRng;
use vstd::prelude::*;

verus! {

#[verifier::external_type_specification]
#[verifier::external_body]
pub struct ExStdRng(rand::rngs::StdRng);

/// Seed of the game's random generator.
#[derive(Debug, Copy, Clone)]
pub struct Seed(pub [u8; 32]);

/// The game's source of randomness. Seeded for reproducible games, or from the
/// operating system's entropy. The numbers drawn with `draw_u32` are kept, as ghost
/// data, in the order they were drawn.
pub struct RandomGenerator {
    rand: StdRng,
    draws: Ghost<Seq<u32>>,
}

/// `StdRng::from_seed` (rand): builds the generator from the 32 seed bytes.
/// Nothing is claimed about the generator's state.
#[verifier::external_body]
fn std_rng_from_seed(seed: [u8; 32]) -> StdRng {
    StdRng::from_seed(seed)
}

/// `SeedableRng::from_rng` (rand) on `OsRng`: seeds the generator with bytes of the
/// operating system's random source; `None` when that source gives no bytes (rand's
/// `try_fill_bytes` fails). Nothing is claimed about the generator's state.
#[verifier::external_body]
fn std_rng_from_os() -> (r: Option<StdRng>) {
    StdRng::from_rng(rand::rngs::OsRng).ok()
}

impl RandomGenerator {
    /// The state of the generator.
    pub closed spec fn spec_rng(&self) -> StdRng {
        self.rand
    }

    /// The numbers drawn with `draw_u32` so far, in order.
    pub closed spec fn spec_draws(&self) -> Seq<u32> {
        self.draws@
    }

    pub fn new(seed: Seed) -> (r: Self)
        ensures
            r.spec_draws().len() == 0,
    {
        Self { rand: std_rng_from_seed(seed.0), draws: Ghost(Seq::empty()) }
    }

    /// A generator seeded from the operating system's random source; `None` when the
    /// operating system gives no random bytes.
    pub fn from_entropy() -> Option<Self> {
        match std_rng_from_os() {
            Some(rand) => Some(Self { rand, draws: Ghost(Seq::empty()) }),
            None => None,
        }
    }

    /// The generator's own state: what is drawn through it advances this generator.
    pub fn rng(&mut self) -> (r: &mut StdRng)
        ensures
            *r == old(self).spec_rng(),
            final(self).spec_rng() == *final(r),
            final(self).spec_draws() == old(self).spec_draws(),
    {
        &mut self.rand
    }

    /// A number of `[low, high)` drawn from the generator; it is added to the numbers
    /// drawn.
    pub fn draw_u32(&mut self, low: u32, high: u32) -> (r: u32)
        requires
            low < high,
        ensures
            low <= r < high,
            final(self).spec_draws() == old(self).spec_draws().push(r),
    {
        let r = gen_range_u32(&mut self.rand, low, high);
        self.draws = Ghost(self.draws@.push(r));
        r
    }
}

/// `SliceRandom::shuffle` (rand): permutes the vector in place. The result holds
/// the same items, each as many times as before.
#[verifier::external_body]
pub(crate) fn shuffle<T>(items: &mut Vec<T>, rng: &mut StdRng)
    ensures
        final(items)@.len() == old(items)@.len(),
        final(items)@.to_multiset() == old(items)@.to_multiset(),
{
    items.shuffle(rng)
}

/// `SliceRandom::choose` (rand): one item of the slice taken at random, `None` only
/// for an empty slice.
#[verifier::external_body]
pub(crate) fn choose_one<'a, T>(items: &'a [T], rng: &mut StdRng) -> (r: Option<&'a T>)
    ensures
        r is None <==> items@.len() == 0,
        r matches Some(x) ==> items@.contains(*x),
{
    items.choose(rng)
}

/// `r` is made of the items of `items` at the positions `idx`, in that order, no
/// position twice.
pub open spec fn is_sample_of<T>(r: Seq<T>, items: Seq<T>, idx: Seq<int>) -> bool {
    &&& idx.len() == r.len()
    &&& forall|k: int| 0 <= k < idx.len() ==> 0 <= #[trigger] idx[k] < items.len()
    &&& forall|k: int| 0 <= k < idx.len() ==> r[k] == items[#[trigger] idx[k]]
    &&& forall|k: int, l: int| 0 <= k < l < idx.len() ==> idx[k] != idx[l]
}

/// Same as `is_sample_of`, for a sequence of references to the items.
pub open spec fn is_ref_sample_of<T>(r: Seq<&T>, items: Seq<T>, idx: Seq<int>) -> bool {
    &&& idx.len() == r.len()
    &&& forall|k: int| 0 <= k < idx.len() ==> 0 <= #[trigger] idx[k] < items.len()
    &&& forall|k: int| 0 <= k < idx.len() ==> *r[k] == items[#[trigger] idx[k]]
    &&& forall|k: int, l: int| 0 <= k < l < idx.len() ==> idx[k] != idx[l]
}

/// `SliceRandom::choose_multiple` (rand), collected: `amount` items of the slice
/// (all of them if it is shorter) taken at random without repetition, in random order.
#[verifier::external_body]
pub(crate) fn choose_multiple<'a, T>(items: &'a [T], rng: &mut StdRng, amount: usize) -> (r: Vec<&'a T>)
    ensures
        r@.len() == if amount <= items@.len() { amount as nat } else { items@.len() },
        exists|idx: Seq<int>| #[trigger] is_ref_sample_of(r@, items@, idx),
{
    items.choose_multiple(rng, amount).collect()
}

/// `Rng::gen_range` (rand) on `u32`: a value of `[low, high)`. The rand source
/// panics when `low >= high`.
#[verifier::external_body]
pub(crate) fn gen_range_u32(rng: &mut StdRng, low: u32, high: u32) -> (r: u32)
    requires
        low < high,
    ensures
        low <= r < high,
{
    rng.gen_range(low, high)
}

/// `Rng::gen_range` (rand) on `i32`: a value of `[low, high)`. The rand source
/// panics when `low >= high`.
#[verifier::external_body]
pub(crate) fn gen_range_i32(rng: &mut StdRng, low: i32, high: i32) -> (r: i32)
    requires
        low < high,
    ensures
        low <= r < high,
{
    rng.gen_range(low, high)
}

} // verus!
