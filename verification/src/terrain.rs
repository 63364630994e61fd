use crate::entity::WorldPos;
use crate::random::{choose_multiple, is_ref_sample_of, shuffle, RandomGenerator};
use vstd::prelude::*;

verus! {

/// Number of blocks of the terrain along x.
pub const NB_BLOCKS_X: u32 = 80;

/// Number of blocks of the terrain along y.
pub const NB_BLOCKS_Y: u32 = 50;

/// Size of a block of the terrain, in world units.
pub const BLOCK_SIZE: i32 = 48;

/// What the noise says of a block of the terrain.
#[derive(Debug, Copy, Clone, PartialEq, Eq, Structural)]
pub enum TerrainBand {
    /// Low noise: place for the first asteroid field.
    FirstField,
    /// High noise: place for the second asteroid field.
    SecondField,
    /// No asteroid there.
    Open,
}

/// World position of the block number `i`; blocks are numbered column after column
/// (x major, y minor), and the grid is centred on the origin.
pub open spec fn block_pos(i: int) -> WorldPos {
    WorldPos {
        x: ((i / NB_BLOCKS_Y as int - NB_BLOCKS_X as int / 2) * BLOCK_SIZE as int) as i32,
        y: ((i % NB_BLOCKS_Y as int - NB_BLOCKS_Y as int / 2) * BLOCK_SIZE as int) as i32,
    }
}

/// Positions of the first `n` blocks whose band is `band`, in block order.
pub open spec fn blocks_of(bands: Seq<TerrainBand>, band: TerrainBand, n: int) -> Seq<WorldPos>
    decreases n,
{
    if n <= 0 {
        Seq::empty()
    } else if bands[n - 1] == band {
        blocks_of(bands, band, n - 1).push(block_pos(n - 1))
    } else {
        blocks_of(bands, band, n - 1)
    }
}

/// World position of the block at column `x` and row `y`.
pub fn block_position(x: u32, y: u32) -> (r: WorldPos)
    requires
        x < NB_BLOCKS_X,
        y < NB_BLOCKS_Y,
    ensures
        r == block_pos(x * NB_BLOCKS_Y + y),
{
    let xi = x as i32 - (NB_BLOCKS_X / 2) as i32;
    let yi = y as i32 - (NB_BLOCKS_Y / 2) as i32;
    proof {
        let i = x * NB_BLOCKS_Y + y;
        assert(i / NB_BLOCKS_Y as int == x as int) by (nonlinear_arith)
            requires i == x * 50 + y, y < 50, x < 80;
        assert(i % NB_BLOCKS_Y as int == y as int) by (nonlinear_arith)
            requires i == x * 50 + y, y < 50, x < 80;
    }
    WorldPos { x: xi * BLOCK_SIZE, y: yi * BLOCK_SIZE }
}

/// Where asteroids may go and where they may not.
#[derive(Debug)]
pub struct TerrainPlan {
    /// Possible places of the first asteroid field.
    pub first_field: Vec<WorldPos>,
    /// Possible places of the second asteroid field.
    pub second_field: Vec<WorldPos>,
    /// Places without asteroids.
    pub no_asteroid: Vec<WorldPos>,
}

/// Sort the blocks of the terrain by band, in block order. `bands` gives the band of
/// each block, column after column.
pub fn partition_terrain(bands: &Vec<TerrainBand>) -> (r: TerrainPlan)
    requires
        bands@.len() == NB_BLOCKS_X * NB_BLOCKS_Y,
    ensures
        r.first_field@ == blocks_of(bands@, TerrainBand::FirstField, bands@.len() as int),
        r.second_field@ == blocks_of(bands@, TerrainBand::SecondField, bands@.len() as int),
        r.no_asteroid@ == blocks_of(bands@, TerrainBand::Open, bands@.len() as int),
{
    let mut first_field: Vec<WorldPos> = Vec::new();
    let mut second_field: Vec<WorldPos> = Vec::new();
    let mut no_asteroid: Vec<WorldPos> = Vec::new();
    let mut x: u32 = 0;
    while x < NB_BLOCKS_X
        invariant
            x <= NB_BLOCKS_X,
            bands@.len() == NB_BLOCKS_X * NB_BLOCKS_Y,
            first_field@ == blocks_of(bands@, TerrainBand::FirstField, x * NB_BLOCKS_Y),
            second_field@ == blocks_of(bands@, TerrainBand::SecondField, x * NB_BLOCKS_Y),
            no_asteroid@ == blocks_of(bands@, TerrainBand::Open, x * NB_BLOCKS_Y),
        decreases NB_BLOCKS_X - x,
    {
        let mut y: u32 = 0;
        while y < NB_BLOCKS_Y
            invariant
                x < NB_BLOCKS_X,
                y <= NB_BLOCKS_Y,
                bands@.len() == NB_BLOCKS_X * NB_BLOCKS_Y,
                first_field@ == blocks_of(bands@, TerrainBand::FirstField, x * NB_BLOCKS_Y + y),
                second_field@ == blocks_of(bands@, TerrainBand::SecondField, x * NB_BLOCKS_Y + y),
                no_asteroid@ == blocks_of(bands@, TerrainBand::Open, x * NB_BLOCKS_Y + y),
            decreases NB_BLOCKS_Y - y,
        {
            let i: usize = (x * NB_BLOCKS_Y + y) as usize;
            let pos = block_position(x, y);
            match bands[i] {
                TerrainBand::FirstField => first_field.push(pos),
                TerrainBand::SecondField => second_field.push(pos),
                TerrainBand::Open => no_asteroid.push(pos),
            }
            y = y + 1;
        }
        x = x + 1;
    }
    TerrainPlan { first_field, second_field, no_asteroid }
}

/// `r` is the first `n` items (all of them if there are fewer) of some reordering of `s`.
pub open spec fn is_shuffled_prefix<T>(r: Seq<T>, s: Seq<T>, n: nat) -> bool {
    exists|p: Seq<T>|
        #[trigger] p.to_multiset() == s.to_multiset() && p.len() == s.len() && r == p.take(
            if n <= s.len() { n as int } else { s.len() as int },
        )
}

/// Shuffle the places of an asteroid field and keep at most `n` of them.
pub fn pick_field(field: Vec<WorldPos>, random: &mut RandomGenerator, n: usize) -> (r: Vec<WorldPos>)
    ensures
        is_shuffled_prefix(r@, field@, n as nat),
{
    let mut field = field;
    let ghost before = field@;
    shuffle(&mut field, random.rng());
    let ghost shuffled = field@;
    field.truncate(n);
    proof {
        assert(field@ == shuffled.take(if n <= before.len() { n as int } else { before.len() as int }));
    }
    field
}

/// Where the asteroids of a stage go: at most `asteroid_per_field` places taken at
/// random in each of the two fields (first field first), and the places left
/// without asteroids.
pub fn generate_terrain(bands: &Vec<TerrainBand>, random: &mut RandomGenerator, asteroid_per_field: usize) -> (r:
    (Vec<WorldPos>, Vec<WorldPos>))
    requires
        bands@.len() == NB_BLOCKS_X * NB_BLOCKS_Y,
    ensures
        exists|a: Seq<WorldPos>, b: Seq<WorldPos>|
            #[trigger] is_shuffled_prefix(a, blocks_of(bands@, TerrainBand::FirstField, bands@.len() as int), asteroid_per_field as nat)
            && #[trigger] is_shuffled_prefix(b, blocks_of(bands@, TerrainBand::SecondField, bands@.len() as int), asteroid_per_field as nat)
            && r.0@ == a + b,
        r.1@ == blocks_of(bands@, TerrainBand::Open, bands@.len() as int),
{
    let plan = partition_terrain(bands);
    let mut asteroids = pick_field(plan.first_field, random, asteroid_per_field);
    let mut second = pick_field(plan.second_field, random, asteroid_per_field);
    let ghost a = asteroids@;
    let ghost b = second@;
    asteroids.append(&mut second);
    (asteroids, plan.no_asteroid)
}

/// Places of the pickups: `amount` places without asteroids taken at random, no
/// place twice (all of them if there are fewer).
pub fn pick_positions(random: &mut RandomGenerator, no_asteroid: &Vec<WorldPos>, amount: usize) -> (r: Vec<WorldPos>)
    ensures
        r@.len() == if amount <= no_asteroid@.len() { amount as nat } else { no_asteroid@.len() },
        exists|idx: Seq<int>| #[trigger] crate::random::is_sample_of(r@, no_asteroid@, idx),
{
    let picked = choose_multiple(no_asteroid.as_slice(), random.rng(), amount);
    let ghost idx = choose|idx: Seq<int>| is_ref_sample_of(picked@, no_asteroid@, idx);
    let mut out: Vec<WorldPos> = Vec::new();
    let mut i: usize = 0;
    while i < picked.len()
        invariant
            i <= picked@.len(),
            out@.len() == i,
            forall|k: int| 0 <= k < i ==> #[trigger] out@[k] == *picked@[k],
        decreases picked@.len() - i,
    {
        out.push(*picked[i]);
        i = i + 1;
    }
    proof {
        assert(crate::random::is_sample_of(out@, no_asteroid@, idx));
    }
    out
}

} // verus!
