use crate::random::{shuffle, RandomGenerator};
use vstd::prelude::*;

verus! {

/// The numbers `0, 1, ..., n - 1`.
pub open spec fn first_numbers(n: nat) -> Seq<u8> {
    Seq::new(n, |i: int| i as u8)
}

/// The permutation table of the noise: the numbers 0 to 254 in random order, then the
/// same numbers again in the same order.
pub fn make_permutation(random: &mut RandomGenerator) -> (r: Vec<u8>)
    ensures
        r@.len() == 510,
        r@.take(255).to_multiset() == first_numbers(255).to_multiset(),
        forall|i: int| 0 <= i < 255 ==> #[trigger] r@[i + 255] == r@[i],
{
    let mut p: Vec<u8> = Vec::new();
    let mut k: u8 = 0;
    while k < 255
        invariant
            k <= 255,
            p@ == first_numbers(k as nat),
        decreases 255 - k,
    {
        p.push(k);
        proof {
            assert(p@ =~= first_numbers(k as nat + 1));
        }
        k = k + 1;
    }
    shuffle(&mut p, random.rng());
    let ghost shuffled = p@;
    let n = p.len();
    let mut i: usize = 0;
    while i < n
        invariant
            n == 255,
            i <= n,
            shuffled.len() == 255,
            p@.len() == 255 + i,
            p@.take(255) == shuffled,
            forall|j: int| 0 <= j < i ==> #[trigger] p@[j + 255] == p@[j],
        decreases n - i,
    {
        let v = p[i];
        p.push(v);
        proof {
            assert(p@.take(255) =~= shuffled);
        }
        i = i + 1;
    }
    p
}

/// Table of the noise; its first 256 entries are read.
#[derive(Debug)]
pub struct PermutationTable(pub Vec<u8>);

impl PermutationTable {
    /// Entry for the coordinate `x`, taken modulo 256.
    pub fn get1(&self, x: isize) -> (r: usize)
        requires
            self.0@.len() >= 256,
        ensures
            r == self.0@[(x & 0xFF) as int] as usize,
    {
        let idx = (x & 0xFF) as usize;
        assert(0 <= (x & 0xFF) < 256) by (bit_vector);
        self.0[idx] as usize
    }

    /// Entry for the coordinates `(x, y)`: the entry of `x`, combined (xor) with `y`
    /// modulo 256, gives the position of the entry read.
    pub fn get2(&self, x: isize, y: isize) -> (r: usize)
        requires
            self.0@.len() >= 256,
        ensures
            r == self.0@[((self.0@[(x & 0xFF) as int] as usize) ^ ((y & 0xFF) as usize)) as int] as usize,
    {
        let y2 = (y & 0xFF) as usize;
        assert(0 <= (y & 0xFF) < 256) by (bit_vector);
        let g = self.get1(x);
        assert(g ^ y2 < 256) by (bit_vector)
            requires
                g < 256,
                y2 < 256,
        ;
        self.0[g ^ y2] as usize
    }
}

/// Perlin noise generator.
#[derive(Debug)]
pub struct Perlin {
    perm: PermutationTable,
    repeat: Option<usize>,
}

impl Perlin {
    pub closed spec fn spec_perm(&self) -> Seq<u8> {
        self.perm.0@
    }

    pub closed spec fn spec_repeat(&self) -> Option<usize> {
        self.repeat
    }

    /// A noise with a permutation table drawn at random (see `make_permutation`).
    pub fn new(random: &mut RandomGenerator) -> (r: Self)
        ensures
            r.spec_perm().len() == 510,
            r.spec_perm().take(255).to_multiset() == first_numbers(255).to_multiset(),
            forall|i: int| 0 <= i < 255 ==> #[trigger] r.spec_perm()[i + 255] == r.spec_perm()[i],
            r.spec_repeat() is None,
    {
        Self { perm: PermutationTable(make_permutation(random)), repeat: None }
    }

    pub fn with_repeat(self, repeat: usize) -> (r: Self)
        ensures
            r.spec_perm() == self.spec_perm(),
            r.spec_repeat() == Some(repeat),
    {
        let mut s = self;
        s.repeat = Some(repeat);
        s
    }

    /// The permutation table.
    pub fn permutation(&self) -> (r: &PermutationTable)
        ensures
            r.0@ == self.spec_perm(),
    {
        &self.perm
    }
}

/// A permutation table drawn by `make_permutation` only holds the numbers 0 to 254,
/// so an entry combined (xor) with a coordinate modulo 256 stays below 256, the first
/// half of the table.
pub proof fn law_permutation_entries_in_range(r: Seq<u8>, i: int)
    requires
        r.len() == 510,
        r.take(255).to_multiset() == first_numbers(255).to_multiset(),
        forall|k: int| 0 <= k < 255 ==> #[trigger] r[k + 255] == r[k],
        0 <= i < 510,
    ensures
        r[i] < 255,
{
    let k = if i < 255 { i } else { i - 255 };
    assert(r[i] == r[k]) by {
        if i >= 255 {
            assert(r[k + 255] == r[k]);
        }
    }
    let t = r.take(255);
    assert(t[k] == r[k]);
    t.to_multiset_ensures();
    first_numbers(255).to_multiset_ensures();
    assert(t.contains(r[k]));
    assert(t.to_multiset().count(r[k]) > 0);
    assert(first_numbers(255).to_multiset().count(r[k]) > 0);
    assert(first_numbers(255).contains(r[k]));
    let j = choose|j: int| 0 <= j < 255 && first_numbers(255)[j] == r[k];
    assert(first_numbers(255)[j] == j as u8);
}

} // verus!
