use crate::entity::{EntityId, WorldPos};
use crate::random::{choose_one, RandomGenerator};
use crate::timer::Timer;
use crate::wave::{Wave, WaveDescription};
use vstd::prelude::*;

verus! {

broadcast use crate::timer::group_timer;

/// Description of a stage, as written in the stage files.
#[derive(Debug)]
pub struct StageDescription {
    pub waves: Vec<WaveDescription>,
    pub nb_pickups: usize,
    pub is_infinite: bool,
    pub next_stage: Option<String>,
    pub backgrounds: Vec<String>,
}

impl StageDescription {
    /// The endless stage: waves are generated as the player goes.
    pub fn infinite() -> (r: Self)
        ensures
            r.waves@.len() == 0,
            r.nb_pickups == 7,
            r.is_infinite,
            r.next_stage is None,
            r.backgrounds@.len() == 0,
    {
        Self {
            waves: Vec::new(),
            nb_pickups: 7,
            is_infinite: true,
            next_stage: None,
            backgrounds: Vec::new(),
        }
    }

    /// One of the backgrounds, taken at random; `None` when there is none.
    pub fn choose_background(&self, random: &mut RandomGenerator) -> (r: Option<String>)
        ensures
            r is None <==> self.backgrounds@.len() == 0,
            r matches Some(b) ==> exists|i: int|
                0 <= i < self.backgrounds@.len() && (#[trigger] self.backgrounds@[i])@ == b@,
    {
        match choose_one(self.backgrounds.as_slice(), random.rng()) {
            Some(b) => Some(b.clone()),
            None => None,
        }
    }
}

/// What the game has to do after a stage update.
#[derive(Debug, Clone, PartialEq, Eq)]
pub enum StageAction {
    /// Nothing to do.
    Nothing,
    /// The wave at this index starts: spawn its enemies.
    StartWave(usize),
    /// Infinite mode: all waves are done, generate the next ones (see `Stage::replace_waves`).
    GenerateWaves,
    /// The stage is over, go to the named stage.
    NextStage(String),
    /// No more stages, you are the boss !
    YouWin,
}

/// Entities and progress of the current stage. `D` is the difficulty used to
/// generate the waves of the infinite mode.
#[derive(Debug)]
pub struct Stage<D> {
    background: Option<EntityId>,
    /// Asteroid entities.
    asteroids: Vec<EntityId>,
    pickups: Vec<EntityId>,
    /// area without asteroids
    no_asteroids: Vec<WorldPos>,
    waves: Vec<Wave>,
    current_wave: Option<usize>,
    next_wave: Option<usize>,
    timer_between_waves: Timer,
    timer_between_stages: Timer,
    finished: bool,
    next_stage: Option<String>,
    pub is_infinite: bool,
    pub wave_number: usize,
    pub wave_difficulty: Option<D>,
}

/// Pause between two waves: five seconds, in microseconds.
pub const MICROS_BETWEEN_WAVES: u64 = 5_000_000;

/// Pause between two stages: ten seconds, in microseconds.
pub const MICROS_BETWEEN_STAGES: u64 = 10_000_000;

impl<D> Stage<D> {
    pub closed spec fn spec_waves(&self) -> Seq<Wave> {
        self.waves@
    }

    pub closed spec fn spec_current_wave(&self) -> Option<usize> {
        self.current_wave
    }

    pub closed spec fn spec_next_wave(&self) -> Option<usize> {
        self.next_wave
    }

    pub closed spec fn spec_timer_between_waves(&self) -> Timer {
        self.timer_between_waves
    }

    pub closed spec fn spec_timer_between_stages(&self) -> Timer {
        self.timer_between_stages
    }

    pub closed spec fn spec_finished(&self) -> bool {
        self.finished
    }

    pub closed spec fn spec_next_stage(&self) -> Option<Seq<char>> {
        match self.next_stage {
            Some(s) => Some(s@),
            None => None,
        }
    }

    pub closed spec fn spec_is_infinite(&self) -> bool {
        self.is_infinite
    }

    pub closed spec fn spec_wave_number(&self) -> nat {
        self.wave_number as nat
    }

    pub closed spec fn spec_wave_difficulty(&self) -> Option<D> {
        self.wave_difficulty
    }

    pub closed spec fn spec_background(&self) -> Option<EntityId> {
        self.background
    }

    pub closed spec fn spec_asteroids(&self) -> Seq<EntityId> {
        self.asteroids@
    }

    pub closed spec fn spec_pickups(&self) -> Seq<EntityId> {
        self.pickups@
    }

    pub closed spec fn spec_no_asteroids(&self) -> Seq<WorldPos> {
        self.no_asteroids@
    }

    /// The stage always has a wave, and the current and next waves are waves of the stage.
    pub open spec fn wf(&self) -> bool {
        &&& self.spec_waves().len() > 0
        &&& (self.spec_current_wave() matches Some(i) ==> i < self.spec_waves().len())
        &&& (self.spec_next_wave() matches Some(i) ==> i < self.spec_waves().len())
    }

    /// A stage that starts with its first wave, once the timer between waves ran out.
    /// Only the infinite stage has a wave difficulty, to generate its next waves.
    pub fn new(
        background: Option<EntityId>,
        asteroids: Vec<EntityId>,
        pickups: Vec<EntityId>,
        no_asteroids: Vec<WorldPos>,
        waves: Vec<Wave>,
        wave_difficulty: Option<D>,
        next_stage: Option<String>,
        is_infinite: bool,
    ) -> (r: Self)
        requires
            waves@.len() > 0,
            wave_difficulty is Some <==> is_infinite,
        ensures
            r.wf(),
            r.spec_background() == background,
            r.spec_asteroids() == asteroids@,
            r.spec_pickups() == pickups@,
            r.spec_no_asteroids() == no_asteroids@,
            r.spec_waves() == waves@,
            r.spec_wave_difficulty() == wave_difficulty,
            r.spec_next_stage() == (match next_stage {
                Some(s) => Some(s@),
                None => None::<Seq<char>>,
            }),
            r.spec_is_infinite() == is_infinite,
            r.spec_wave_number() == 1,
            !r.spec_finished(),
            r.spec_current_wave() is None,
            r.spec_next_wave() == Some(0usize),
            r.spec_timer_between_waves() == Timer::of_micros_spec(MICROS_BETWEEN_WAVES),
            r.spec_timer_between_stages() == Timer::of_micros_spec(MICROS_BETWEEN_STAGES),
    {
        Self {
            background,
            asteroids,
            pickups,
            wave_number: 1,
            waves,
            finished: false,
            no_asteroids,
            current_wave: None,
            next_wave: Some(0),
            timer_between_waves: Timer::of_micros(MICROS_BETWEEN_WAVES),
            timer_between_stages: Timer::of_micros(MICROS_BETWEEN_STAGES),
            wave_difficulty,
            next_stage,
            is_infinite,
        }
    }
}


impl<D> Stage<D> {
    /// Everything but the wave bookkeeping and the two timers is the same in both stages.
    pub open spec fn same_contents(&self, other: &Stage<D>) -> bool {
        &&& self.spec_background() == other.spec_background()
        &&& self.spec_asteroids() == other.spec_asteroids()
        &&& self.spec_pickups() == other.spec_pickups()
        &&& self.spec_no_asteroids() == other.spec_no_asteroids()
        &&& self.spec_next_stage() == other.spec_next_stage()
        &&& self.spec_is_infinite() == other.spec_is_infinite()
        &&& self.spec_wave_difficulty() == other.spec_wave_difficulty()
    }

    /// Advance the stage by `dt` microseconds and tell what the game has to do.
    ///
    /// - No current wave and no next wave: the stage is over. With a next stage, the
    ///   stage is marked finished and the pause between stages is started and runs; once it ran out,
    ///   the game goes to the next stage. Without one, the player won.
    /// - No current wave, a next wave: the pause between waves is started and runs; once it ran out,
    ///   the wave number goes up, the pause is stopped and reset, and the next wave
    ///   becomes the current one and starts.
    /// - A current wave that is finished: the following wave becomes the next one; after
    ///   the last wave, the infinite mode asks for new waves (the next wave is then the
    ///   first of them), and the other stages have no next wave.
    pub fn update(&mut self, dt: u64) -> (r: StageAction)
        requires
            old(self).wf(),
            old(self).spec_current_wave() is None && old(self).spec_next_wave() is Some
                && old(self).spec_timer_between_waves().with_enabled(true).after_tick(dt as nat).spec_finished()
                ==> old(self).spec_wave_number() < usize::MAX,
        ensures
            final(self).wf(),
            final(self).same_contents(old(self)),
            match (old(self).spec_current_wave(), old(self).spec_next_wave()) {
                (None, None) => match old(self).spec_next_stage() {
                    Some(next) => {
                        &&& final(self).spec_finished()
                        &&& final(self).spec_timer_between_stages()
                            == old(self).spec_timer_between_stages().with_enabled(true).after_tick(dt as nat)
                        &&& (if final(self).spec_timer_between_stages().spec_finished() {
                            r matches StageAction::NextStage(n) && n@ == next
                        } else {
                            r == StageAction::Nothing
                        })
                        &&& final(self).spec_waves() == old(self).spec_waves()
                        &&& final(self).spec_current_wave() == old(self).spec_current_wave()
                        &&& final(self).spec_next_wave() == old(self).spec_next_wave()
                        &&& final(self).spec_wave_number() == old(self).spec_wave_number()
                        &&& final(self).spec_timer_between_waves() == old(self).spec_timer_between_waves()
                    },
                    None => {
                        &&& r == StageAction::YouWin
                        &&& *final(self) == *old(self)
                    },
                },
                (None, Some(next)) => {
                    let ticked = old(self).spec_timer_between_waves().with_enabled(true).after_tick(dt as nat);
                    &&& final(self).spec_waves() == old(self).spec_waves()
                    &&& final(self).spec_next_wave() == old(self).spec_next_wave()
                    &&& final(self).spec_finished() == old(self).spec_finished()
                    &&& final(self).spec_timer_between_stages() == old(self).spec_timer_between_stages()
                    &&& if ticked.spec_finished() {
                        &&& r == StageAction::StartWave(next)
                        &&& final(self).spec_current_wave() == Some(next)
                        &&& final(self).spec_wave_number() == old(self).spec_wave_number() + 1
                        &&& final(self).spec_timer_between_waves()
                            == ticked.with_enabled(false).after_reset()
                    } else {
                        &&& r == StageAction::Nothing
                        &&& final(self).spec_current_wave() is None
                        &&& final(self).spec_wave_number() == old(self).spec_wave_number()
                        &&& final(self).spec_timer_between_waves() == ticked
                    }
                },
                (Some(idx), _) => {
                    &&& final(self).spec_waves() == old(self).spec_waves()
                    &&& final(self).spec_finished() == old(self).spec_finished()
                    &&& final(self).spec_wave_number() == old(self).spec_wave_number()
                    &&& final(self).spec_timer_between_waves() == old(self).spec_timer_between_waves()
                    &&& final(self).spec_timer_between_stages() == old(self).spec_timer_between_stages()
                    &&& if old(self).spec_waves()[idx as int].spec_init()
                        && old(self).spec_waves()[idx as int].spec_enemies().len() == 0 {
                        &&& final(self).spec_current_wave() is None
                        &&& if idx + 1 < old(self).spec_waves().len() {
                            &&& r == StageAction::Nothing
                            &&& final(self).spec_next_wave() == Some((idx + 1) as usize)
                        } else if old(self).spec_is_infinite() {
                            &&& r == StageAction::GenerateWaves
                            &&& final(self).spec_next_wave() == Some(0usize)
                        } else {
                            &&& r == StageAction::Nothing
                            &&& final(self).spec_next_wave() is None
                        }
                    } else {
                        &&& r == StageAction::Nothing
                        &&& *final(self) == *old(self)
                    }
                },
            },
    {
        match (self.current_wave, self.next_wave) {
            (None, None) => {
                match &self.next_stage {
                    Some(next_stage) => {
                        // In this case, the stage is over !
                        let name = next_stage.clone();
                        self.finished = true;
                        self.timer_between_stages.start();
                        self.timer_between_stages.tick(dt);
                        if self.timer_between_stages.finished() {
                            StageAction::NextStage(name)
                        } else {
                            StageAction::Nothing
                        }
                    },
                    None => {
                        // no more stages, the game is finished !
                        StageAction::YouWin
                    },
                }
            },
            (None, Some(next_wave)) => {
                // Tick the timer between waves.
                self.timer_between_waves.start();
                self.timer_between_waves.tick(dt);
                if self.timer_between_waves.finished() {
                    self.wave_number = self.wave_number + 1;
                    self.timer_between_waves.stop();
                    self.timer_between_waves.reset();
                    // now start the next wave.
                    self.current_wave = Some(next_wave);
                    StageAction::StartWave(next_wave)
                } else {
                    StageAction::Nothing
                }
            },
            (Some(idx), _) => {
                // just check if the current wave is over. If yes, then prepare for next
                // wave or finish the stage
                if self.waves[idx].is_finished() {
                    self.current_wave = None;
                    if self.waves.len() > idx + 1 {
                        self.next_wave = Some(idx + 1);
                        StageAction::Nothing
                    } else if self.is_infinite {
                        // in infinite mode, more waves are generated: never stop!
                        self.next_wave = Some(0);
                        StageAction::GenerateWaves
                    } else {
                        self.next_wave = None;
                        StageAction::Nothing
                    }
                } else {
                    StageAction::Nothing
                }
            },
        }
    }

    /// The waves generated for the infinite mode replace the previous ones.
    pub fn replace_waves(&mut self, waves: Vec<Wave>, wave_difficulty: D)
        requires
            old(self).wf(),
            waves@.len() > 0,
            old(self).spec_current_wave() is None,
        ensures
            final(self).wf(),
            final(self).spec_waves() == waves@,
            final(self).spec_wave_difficulty() == Some(wave_difficulty),
            final(self).spec_next_wave() == Some(0usize),
            final(self).spec_current_wave() is None,
            final(self).spec_background() == old(self).spec_background(),
            final(self).spec_asteroids() == old(self).spec_asteroids(),
            final(self).spec_pickups() == old(self).spec_pickups(),
            final(self).spec_no_asteroids() == old(self).spec_no_asteroids(),
            final(self).spec_next_stage() == old(self).spec_next_stage(),
            final(self).spec_is_infinite() == old(self).spec_is_infinite(),
            final(self).spec_finished() == old(self).spec_finished(),
            final(self).spec_wave_number() == old(self).spec_wave_number(),
            final(self).spec_timer_between_waves() == old(self).spec_timer_between_waves(),
            final(self).spec_timer_between_stages() == old(self).spec_timer_between_stages(),
    {
        self.waves = waves;
        self.wave_difficulty = Some(wave_difficulty);
        self.next_wave = Some(0);
    }
}


/// The decimal digits of `n`.
pub open spec fn decimal(n: nat) -> Seq<char>
    decreases n,
{
    if n < 10 {
        seq![digit_char(n)]
    } else {
        decimal(n / 10).push(digit_char(n % 10))
    }
}

/// The character of the decimal digit `d`.
pub open spec fn digit_char(d: nat) -> char {
    (48 + d) as char
}

/// `n` in decimal, padded with zeros to at least two digits.
pub open spec fn two_digits(n: nat) -> Seq<char> {
    if n < 10 {
        seq!['0'] + decimal(n)
    } else {
        decimal(n)
    }
}

/// `format!` (std) with `{:02}`: the number in decimal, padded with zeros to at least
/// two digits.
#[verifier::external_body]
fn two_digit_text(secs: u64) -> (r: String)
    ensures
        r@ == two_digits(secs as nat),
{
    format!("{:02}", secs)
}

/// The enemies of the waves, wave after wave.
pub open spec fn all_wave_enemies(waves: Seq<Wave>) -> Seq<EntityId>
    decreases waves.len(),
{
    if waves.len() == 0 {
        Seq::empty()
    } else {
        all_wave_enemies(waves.drop_last()) + waves.last().spec_enemies()
    }
}

impl<D> Stage<D> {
    /// An enemy died: it leaves the current wave, if there is one.
    pub fn enemy_died(&mut self, entity: EntityId)
        requires
            old(self).wf(),
        ensures
            final(self).wf(),
            final(self).same_contents(old(self)),
            final(self).spec_current_wave() == old(self).spec_current_wave(),
            final(self).spec_next_wave() == old(self).spec_next_wave(),
            final(self).spec_finished() == old(self).spec_finished(),
            final(self).spec_wave_number() == old(self).spec_wave_number(),
            final(self).spec_waves().len() == old(self).spec_waves().len(),
            match old(self).spec_current_wave() {
                Some(i) => {
                    &&& final(self).spec_waves()[i as int].spec_enemies()
                        == crate::wave::remove_first(old(self).spec_waves()[i as int].spec_enemies(), entity)
                    &&& final(self).spec_waves()[i as int].spec_init() == old(self).spec_waves()[i as int].spec_init()
                    &&& final(self).spec_waves()[i as int].spec_description()
                        == old(self).spec_waves()[i as int].spec_description()
                    &&& forall|j: int| 0 <= j < old(self).spec_waves().len() && j != i
                        ==> final(self).spec_waves()[j] == old(self).spec_waves()[j]
                },
                None => final(self).spec_waves() == old(self).spec_waves(),
            },
    {
        if let Some(i) = self.current_wave {
            self.waves[i].remove_enemy(entity);
        }
    }

    /// Text to show the player: the stage is over, or the countdown before the next
    /// wave (whole seconds left); nothing while a wave is running.
    pub fn display(&self) -> (r: Option<String>)
        ensures
            self.spec_finished() ==> (r matches Some(t) && t@ == "Brace for next stage"@),
            !self.spec_finished() && self.spec_current_wave() is None ==> (r matches Some(t) && t@
                == "Next wave will start in "@ + two_digits(
                (if self.spec_timer_between_waves().spec_finished() {
                    0
                } else {
                    self.spec_timer_between_waves().spec_deadline()
                        - self.spec_timer_between_waves().spec_elapsed()
                }) as nat / 1_000_000,
            )),
            !self.spec_finished() && self.spec_current_wave() is Some ==> r is None,
    {
        if self.finished {
            return Some("Brace for next stage".to_owned());
        }
        if self.current_wave.is_none() {
            let digits = two_digit_text(self.timer_between_waves.remaining() / 1_000_000);
            Some(String::from_str("Next wave will start in ").concat(digits.as_str()))
        } else {
            None
        }
    }

    /// All the entities of the stage, to remove from the world when the stage is left:
    /// the enemies of the waves, the background, the asteroids, then the pickups.
    pub fn entities_to_despawn(&self) -> (r: Vec<EntityId>)
        ensures
            r@ == all_wave_enemies(self.spec_waves()) + (match self.spec_background() {
                Some(b) => seq![b],
                None => Seq::empty(),
            }) + self.spec_asteroids() + self.spec_pickups(),
    {
        let mut out: Vec<EntityId> = Vec::new();
        let mut w: usize = 0;
        while w < self.waves.len()
            invariant
                w <= self.waves@.len(),
                out@ == all_wave_enemies(self.waves@.take(w as int)),
            decreases self.waves@.len() - w,
        {
            let enemies = self.waves[w].enemies();
            let ghost before = out@;
            let mut k: usize = 0;
            while k < enemies.len()
                invariant
                    k <= enemies@.len(),
                    out@ == before + enemies@.take(k as int),
                decreases enemies@.len() - k,
            {
                out.push(enemies[k]);
                proof {
                    assert(enemies@.take(k as int + 1) == enemies@.take(k as int).push(enemies@[k as int]));
                }
                k = k + 1;
            }
            proof {
                assert(self.waves@.take(w as int + 1).drop_last() == self.waves@.take(w as int));
                assert(enemies@.take(k as int) == enemies@);
                assert(self.waves@[w as int].spec_enemies() == enemies@);
            }
            w = w + 1;
        }
        proof {
            assert(self.waves@.take(w as int) == self.waves@);
        }
        if let Some(bg) = self.background {
            out.push(bg);
        }
        let mut k: usize = 0;
        let ghost before = out@;
        while k < self.asteroids.len()
            invariant
                k <= self.asteroids@.len(),
                out@ == before + self.asteroids@.take(k as int),
            decreases self.asteroids@.len() - k,
        {
            out.push(self.asteroids[k]);
            proof {
                assert(self.asteroids@.take(k as int + 1) == self.asteroids@.take(k as int).push(self.asteroids@[k as int]));
            }
            k = k + 1;
        }
        proof {
            assert(self.asteroids@.take(k as int) == self.asteroids@);
        }
        let mut k: usize = 0;
        let ghost before2 = out@;
        while k < self.pickups.len()
            invariant
                k <= self.pickups@.len(),
                out@ == before2 + self.pickups@.take(k as int),
            decreases self.pickups@.len() - k,
        {
            out.push(self.pickups[k]);
            proof {
                assert(self.pickups@.take(k as int + 1) == self.pickups@.take(k as int).push(self.pickups@[k as int]));
            }
            k = k + 1;
        }
        proof {
            assert(self.pickups@.take(k as int) == self.pickups@);
        }
        out
    }

    /// Where to place the enemies of the wave `idx` (see `Wave::spawn_positions`).
    pub fn wave_spawn_positions(&self, idx: usize, random: &mut RandomGenerator) -> (r: Vec<WorldPos>)
        requires
            self.wf(),
            idx < self.spec_waves().len(),
            self.spec_no_asteroids().len() > 0,
        ensures
            r@.len() == self.spec_waves()[idx as int].spec_description().len(),
            forall|i: int| 0 <= i < r@.len() ==> self.spec_no_asteroids().contains(#[trigger] r@[i]),
    {
        self.waves[idx].spawn_positions(random, &self.no_asteroids)
    }

    /// The enemies of the wave `idx` were spawned: the wave is started.
    pub fn set_wave_spawned(&mut self, idx: usize, spawned: Vec<EntityId>)
        requires
            old(self).wf(),
            idx < old(self).spec_waves().len(),
        ensures
            final(self).wf(),
            final(self).same_contents(old(self)),
            final(self).spec_current_wave() == old(self).spec_current_wave(),
            final(self).spec_next_wave() == old(self).spec_next_wave(),
            final(self).spec_finished() == old(self).spec_finished(),
            final(self).spec_wave_number() == old(self).spec_wave_number(),
            final(self).spec_waves().len() == old(self).spec_waves().len(),
            final(self).spec_waves()[idx as int].spec_enemies()
                == old(self).spec_waves()[idx as int].spec_enemies() + spawned@,
            final(self).spec_waves()[idx as int].spec_init(),
            forall|j: int| 0 <= j < old(self).spec_waves().len() && j != idx
                ==> final(self).spec_waves()[j] == old(self).spec_waves()[j],
    {
        self.waves[idx].set_spawned(spawned);
    }

    /// Can the stage advance by `dt` now: the wave number can count the wave that
    /// would start.
    pub fn can_update(&self, dt: u64) -> (r: bool)
        ensures
            r == (self.spec_current_wave() is None && self.spec_next_wave() is Some
                && self.spec_timer_between_waves().with_enabled(true).after_tick(dt as nat).spec_finished()
                ==> self.spec_wave_number() < usize::MAX),
    {
        if self.current_wave.is_none() && self.next_wave.is_some() {
            let mut t = self.timer_between_waves;
            t.start();
            t.tick(dt);
            !t.finished() || self.wave_number < usize::MAX
        } else {
            true
        }
    }

    /// Names of the prefabs of the wave `idx`.
    pub fn wave_prefabs(&self, idx: usize) -> (r: &Vec<String>)
        requires
            idx < self.spec_waves().len(),
        ensures
            crate::wave::string_views(r@) == self.spec_waves()[idx as int].spec_description(),
    {
        self.waves[idx].to_instantiate()
    }

    /// Index of the wave being played, if any.
    pub fn current_wave(&self) -> (r: Option<usize>)
        ensures
            r == self.spec_current_wave(),
    {
        self.current_wave
    }

    /// True once the last wave is over and the stage waits for the next one.
    pub fn is_finished(&self) -> (r: bool)
        ensures
            r == self.spec_finished(),
    {
        self.finished
    }
}

} // verus!
