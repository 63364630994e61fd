use crate::entity::{EntityId, WorldPos};
use crate::random::{choose_multiple, choose_one, is_ref_sample_of, is_sample_of, RandomGenerator};
use vstd::prelude::*;

verus! {

/// Names of all the enemy prefabs.
pub const ENEMY_PREFABS: [&'static str; 12] = [
    "base_enemy",
    "base_enemy_2",
    "base_enemy_3",
    "satellite",
    "boss1",
    "last_boss",
    "mine_lander",
    "mine",
    "wanderer",
    "spammer",
    "carrier",
    "kamikaze",
];

/// Easiest enemies of the infinite mode.
pub const ENEMY_STR_1: [&'static str; 4] = ["base_enemy", "base_enemy", "wanderer", "kamikaze"];

/// Medium enemies of the infinite mode.
pub const ENEMY_STR_2: [&'static str; 4] = ["mine_lander", "satellite", "base_enemy_2", "spammer"];

/// Hardest enemies of the infinite mode.
pub const ENEMY_STR_3: [&'static str; 4] = ["boss1", "base_enemy_3", "carrier", "last_boss"];

/// The texts of a sequence of strings.
pub open spec fn string_views(s: Seq<String>) -> Seq<Seq<char>> {
    s.map_values(|x: String| x@)
}

/// The texts of a sequence of string slices.
pub open spec fn str_views(s: Seq<&str>) -> Seq<Seq<char>> {
    s.map_values(|x: &str| x@)
}

/// What a wave is made of.
#[derive(Debug, Clone)]
pub struct WaveDescription {
    /// List of stuff to instantiate in the wave
    pub to_instantiate: Vec<String>,
}

/// A wave of enemies of a stage.
#[derive(Debug)]
pub struct Wave {
    wave_desc: WaveDescription,
    enemies: Vec<EntityId>,
    init: bool,
}

/// `s` after removing its first occurrence of `e`; `s` itself when `e` does not occur.
pub open spec fn remove_first<T>(s: Seq<T>, e: T) -> Seq<T> {
    match s.index_of_first(e) {
        Some(i) => s.remove(i),
        None => s,
    }
}

impl Wave {
    pub closed spec fn spec_description(&self) -> Seq<Seq<char>> {
        string_views(self.wave_desc.to_instantiate@)
    }

    pub closed spec fn spec_enemies(&self) -> Seq<EntityId> {
        self.enemies@
    }

    pub closed spec fn spec_init(&self) -> bool {
        self.init
    }

    /// A wave not started yet, for the given description.
    pub fn from_description(wave_desc: WaveDescription) -> (r: Self)
        ensures
            r.spec_description() == string_views(wave_desc.to_instantiate@),
            r.spec_enemies().len() == 0,
            !r.spec_init(),
    {
        Self { wave_desc, enemies: Vec::new(), init: false }
    }

    /// The enemies of the wave still alive.
    pub fn enemies(&self) -> (r: &Vec<EntityId>)
        ensures
            r@ == self.spec_enemies(),
    {
        &self.enemies
    }

    /// Names of the prefabs to instantiate when the wave starts.
    pub fn to_instantiate(&self) -> (r: &Vec<String>)
        ensures
            string_views(r@) == self.spec_description(),
    {
        &self.wave_desc.to_instantiate
    }

    /// Where each enemy of the wave is placed: one position taken at random among the
    /// places without asteroids for each prefab to instantiate, in the same order.
    pub fn spawn_positions(&self, random: &mut RandomGenerator, no_asteroids: &Vec<WorldPos>) -> (r:
        Vec<WorldPos>)
        requires
            no_asteroids@.len() > 0,
        ensures
            r@.len() == self.spec_description().len(),
            forall|i: int| 0 <= i < r@.len() ==> no_asteroids@.contains(#[trigger] r@[i]),
    {
        let n = self.wave_desc.to_instantiate.len();
        let mut out: Vec<WorldPos> = Vec::new();
        let mut i: usize = 0;
        while i < n
            invariant
                n == self.spec_description().len(),
                self.wave_desc.to_instantiate@.len() == n,
                no_asteroids@.len() > 0,
                i <= n,
                out@.len() == i,
                forall|k: int| 0 <= k < out@.len() ==> no_asteroids@.contains(#[trigger] out@[k]),
            decreases n - i,
        {
            let pos = choose_one(no_asteroids.as_slice(), random.rng());
            match pos {
                Some(p) => {
                    out.push(*p);
                },
                None => {},
            }
            i = i + 1;
        }
        out
    }

    /// Record the enemies spawned for the wave; the wave is then started.
    pub fn set_spawned(&mut self, spawned: Vec<EntityId>)
        ensures
            final(self).spec_enemies() == old(self).spec_enemies() + spawned@,
            final(self).spec_init(),
            final(self).spec_description() == old(self).spec_description(),
    {
        let mut spawned = spawned;
        self.enemies.append(&mut spawned);
        self.init = true;
    }

    /// Forget an enemy of the wave (it died): its first occurrence is removed.
    pub fn remove_enemy(&mut self, entity: EntityId)
        ensures
            final(self).spec_enemies() == remove_first(old(self).spec_enemies(), entity),
            final(self).spec_init() == old(self).spec_init(),
            final(self).spec_description() == old(self).spec_description(),
    {
        let n = self.enemies.len();
        let mut i: usize = 0;
        while i < n
            invariant
                n == self.enemies@.len(),
                *self == *old(self),
                i <= n,
                forall|k: int| 0 <= k < i ==> self.enemies@[k] != entity,
            decreases n - i,
        {
            if self.enemies[i] == entity {
                proof {
                    self.enemies@.index_of_first_ensures(entity);
                }
                self.enemies.remove(i);
                return;
            }
            i = i + 1;
        }
        proof {
            self.enemies@.index_of_first_ensures(entity);
        }
    }

    /// The wave started and all its enemies are gone.
    pub fn is_finished(&self) -> (r: bool)
        ensures
            r == (self.spec_init() && self.spec_enemies().len() == 0),
    {
        self.init && self.enemies.len() == 0
    }
}

/// Each death of an enemy of the wave takes one enemy out of it: once every enemy
/// spawned died, none is left and the wave is over.
pub proof fn law_death_removes_one(enemies: Seq<EntityId>, e: EntityId)
    ensures
        enemies.contains(e) ==> remove_first(enemies, e).len() + 1 == enemies.len(),
        !enemies.contains(e) ==> remove_first(enemies, e) == enemies,
{
    enemies.index_of_first_ensures(e);
}

/// A wave of `nb_enemies` different enemy prefabs taken at random (all of them when
/// `nb_enemies` is larger than the number of prefabs).
pub fn gen_wave(nb_enemies: usize, random: &mut RandomGenerator) -> (r: WaveDescription)
    ensures
        r.to_instantiate@.len() == if nb_enemies <= 12 { nb_enemies as nat } else { 12 },
        exists|idx: Seq<int>|
            #[trigger] is_sample_of(string_views(r.to_instantiate@), str_views(ENEMY_PREFABS@), idx),
{
    let picked = choose_multiple(&ENEMY_PREFABS, random.rng(), nb_enemies);
    let ghost idx = choose|idx: Seq<int>| is_ref_sample_of(picked@, ENEMY_PREFABS@, idx);
    let mut names: Vec<String> = Vec::new();
    let mut i: usize = 0;
    while i < picked.len()
        invariant
            i <= picked@.len(),
            names@.len() == i,
            forall|k: int| 0 <= k < i ==> (#[trigger] names@[k])@ == (*picked@[k])@,
        decreases picked@.len() - i,
    {
        names.push((*picked[i]).to_owned());
        i = i + 1;
    }
    proof {
        assert(is_sample_of(string_views(names@), str_views(ENEMY_PREFABS@), idx));
    }
    let r = WaveDescription { to_instantiate: names };
    assert(is_sample_of(string_views(r.to_instantiate@), str_views(ENEMY_PREFABS@), idx));
    r
}

} // verus!
