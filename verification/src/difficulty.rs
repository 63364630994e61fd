use crate::random::{choose_one, RandomGenerator};
use crate::wave::{str_views, ENEMY_STR_1, ENEMY_STR_2, ENEMY_STR_3};
use vstd::prelude::*;

verus! {

/// `n` enemy names, each taken at random in `pool`, pushed after `names`.
fn push_random_names(names: &mut Vec<String>, pool: &[&'static str; 4], n: usize, random: &mut RandomGenerator)
    ensures
        final(names)@.len() == old(names)@.len() + n,
        forall|i: int| 0 <= i < old(names)@.len() ==> final(names)@[i] == old(names)@[i],
        forall|i: int|
            old(names)@.len() <= i < final(names)@.len() ==> str_views(pool@).contains(
                #[trigger] final(names)@[i]@,
            ),
{
    let mut k: usize = 0;
    while k < n
        invariant
            k <= n,
            names@.len() == old(names)@.len() + k,
            pool@.len() == 4,
            forall|i: int| 0 <= i < old(names)@.len() ==> names@[i] == old(names)@[i],
            forall|i: int|
                old(names)@.len() <= i < names@.len() ==> str_views(pool@).contains(#[trigger] names@[i]@),
        decreases n - k,
    {
        let picked = choose_one(pool, random.rng());
        match picked {
            Some(p) => {
                proof {
                    let j = choose|j: int| 0 <= j < pool@.len() && pool@[j] == *p;
                    assert(str_views(pool@)[j] == (*p)@);
                }
                names.push((*p).to_owned());
            },
            None => {},
        }
        k = k + 1;
    }
}

/// Enemy prefabs of an infinite-mode wave: `lvl1` easy, then `lvl2` medium, then
/// `lvl3` hard enemies, each taken at random among the enemies of its level.
pub fn pick_prefabs(lvl1: usize, lvl2: usize, lvl3: usize, random: &mut RandomGenerator) -> (r: Vec<String>)
    ensures
        r@.len() == lvl1 + lvl2 + lvl3,
        forall|i: int| 0 <= i < lvl1 ==> str_views(ENEMY_STR_1@).contains(#[trigger] r@[i]@),
        forall|i: int| lvl1 <= i < lvl1 + lvl2 ==> str_views(ENEMY_STR_2@).contains(#[trigger] r@[i]@),
        forall|i: int|
            lvl1 + lvl2 <= i < lvl1 + lvl2 + lvl3 ==> str_views(ENEMY_STR_3@).contains(#[trigger] r@[i]@),
{
    let mut prefabs: Vec<String> = Vec::new();
    push_random_names(&mut prefabs, &ENEMY_STR_1, lvl1, random);
    push_random_names(&mut prefabs, &ENEMY_STR_2, lvl2, random);
    push_random_names(&mut prefabs, &ENEMY_STR_3, lvl3, random);
    prefabs
}

} // verus!
