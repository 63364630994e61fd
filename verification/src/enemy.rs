use crate::bullet::BulletType;
use crate::timer::Timer;
use vstd::prelude::*;

verus! {

broadcast use crate::timer::group_timer;

/// Sound of most enemy shots.
pub open spec fn laser_04() -> Seq<char> {
    "sounds/scifi_kit/Laser/Laser_04.wav"@
}

/// Sound of the first boss's shots.
pub open spec fn laser_03() -> Seq<char> {
    "sounds/scifi_kit/Laser/Laser_03.wav"@
}

/// Distance (in whole world units) under which a kamikaze explodes on the player.
pub const KAMIKAZE_TRIGGER_DISTANCE: u32 = 60;

/// Distance (in whole world units) under which a basic enemy shoots the player.
pub const FOLLOWER_SHOOT_DISTANCE: u32 = 1000;

/// Radius of the explosion of a kamikaze.
pub const KAMIKAZE_EXPLOSION_RADIUS: u32 = 100;

/// Boss that shoots salvos of single bullets at the player.
#[derive(Debug, Copy, Clone)]
pub struct Boss1 {
    /// Time between shots
    pub shoot_timer: Timer,
    /// nb of time to shoot during a salve
    pub nb_shot: usize,
    /// nb of shots during current salve.
    pub current_shot: usize,
    /// timeout between salves.
    pub salve_timer: Timer,
}

/// Last boss: salvos of rings of bullets.
#[derive(Debug, Copy, Clone)]
pub struct LastBoss {
    /// Time between shots
    pub shoot_timer: Timer,
    /// nb of time to shoot during a salve
    pub nb_shot: usize,
    /// nb of shots during current salve.
    pub current_shot: usize,
    /// timeout between salves.
    pub salve_timer: Timer,
}

/// Salvos of fans of bullets.
#[derive(Debug, Copy, Clone)]
pub struct Spammer {
    /// Time between shots
    pub shoot_timer: Timer,
    /// nb of time to shoot during a salve
    pub nb_shot: usize,
    /// nb of shots during current salve.
    pub current_shot: usize,
    /// timeout between salves.
    pub salve_timer: Timer,
}

/// Shared description of a salvo shooter (boss, last boss, spammer): the next state
/// after `dt` microseconds, and the index of the shot fired during that time, if any.
///
/// While the salvo is not over (`current_shot != nb_shot`) the shot timer runs; when it
/// ran out it is reset, a shot is fired and counted. Once the salvo is over, the timer
/// between salvos is started (the pause runs while the salvo is over) and counts the
/// time; when it ran out a new salvo is prepared: shot timer reset and started, salvo
/// timer reset and stopped, no shot counted.
pub open spec fn salvo_step(shoot_timer: Timer, nb_shot: nat, current_shot: nat, salve_timer: Timer, dt: nat) -> (
    Timer,
    nat,
    Timer,
    Option<nat>,
) {
    if nb_shot != current_shot {
        let t = shoot_timer.after_tick(dt);
        if t.spec_finished() {
            (t.after_reset(), current_shot + 1, salve_timer, Some(current_shot))
        } else {
            (t, current_shot, salve_timer, None)
        }
    } else {
        let s = salve_timer.with_enabled(true).after_tick(dt);
        if s.spec_finished() {
            (shoot_timer.after_reset().with_enabled(true), 0, s.after_reset().with_enabled(false), None)
        } else {
            (shoot_timer, current_shot, s, None)
        }
    }
}

impl Boss1 {
    pub fn should_shoot(&self) -> (r: bool)
        ensures
            r == (self.nb_shot != self.current_shot),
    {
        self.nb_shot != self.current_shot
    }

    pub fn prepare_to_shoot(&mut self)
        ensures
            final(self).shoot_timer == old(self).shoot_timer.after_reset().with_enabled(true),
            final(self).salve_timer == old(self).salve_timer.after_reset().with_enabled(false),
            final(self).current_shot == 0,
            final(self).nb_shot == old(self).nb_shot,
    {
        self.shoot_timer.reset();
        self.shoot_timer.start();
        self.salve_timer.reset();
        self.salve_timer.stop();
        self.current_shot = 0;
    }

    /// Advance the salvo by `dt` microseconds; the index of the shot fired, if any.
    pub fn update(&mut self, dt: u64) -> (r: Option<usize>)
        requires
            old(self).current_shot != old(self).nb_shot ==> old(self).current_shot < usize::MAX,
        ensures
            old(self).current_shot <= old(self).nb_shot ==> final(self).current_shot <= final(self).nb_shot,
            ({
                let (st, cs, sv, shot) = salvo_step(
                    old(self).shoot_timer,
                    old(self).nb_shot as nat,
                    old(self).current_shot as nat,
                    old(self).salve_timer,
                    dt as nat,
                );
                &&& final(self).shoot_timer == st
                &&& final(self).current_shot == cs
                &&& final(self).salve_timer == sv
                &&& final(self).nb_shot == old(self).nb_shot
                &&& match r {
                    Some(i) => shot == Some(i as nat),
                    None => shot is None,
                }
            }),
    {
        if self.should_shoot() {
            self.shoot_timer.tick(dt);
            if self.shoot_timer.finished() {
                self.shoot_timer.reset();
                let shot = self.current_shot;
                self.current_shot = self.current_shot + 1;
                Some(shot)
            } else {
                None
            }
        } else {
            // needs to wait before it is able to shoot again.
            self.salve_timer.start();
            self.salve_timer.tick(dt);
            if self.salve_timer.finished() {
                self.prepare_to_shoot();
            }
            None
        }
    }
}

impl LastBoss {
    pub fn should_shoot(&self) -> (r: bool)
        ensures
            r == (self.nb_shot != self.current_shot),
    {
        self.nb_shot != self.current_shot
    }

    pub fn prepare_to_shoot(&mut self)
        ensures
            final(self).shoot_timer == old(self).shoot_timer.after_reset().with_enabled(true),
            final(self).salve_timer == old(self).salve_timer.after_reset().with_enabled(false),
            final(self).current_shot == 0,
            final(self).nb_shot == old(self).nb_shot,
    {
        self.shoot_timer.reset();
        self.shoot_timer.start();
        self.salve_timer.reset();
        self.salve_timer.stop();
        self.current_shot = 0;
    }

    /// Advance the salvo by `dt` microseconds; the index of the shot fired, if any.
    pub fn update(&mut self, dt: u64) -> (r: Option<usize>)
        requires
            old(self).current_shot != old(self).nb_shot ==> old(self).current_shot < usize::MAX,
        ensures
            old(self).current_shot <= old(self).nb_shot ==> final(self).current_shot <= final(self).nb_shot,
            ({
                let (st, cs, sv, shot) = salvo_step(
                    old(self).shoot_timer,
                    old(self).nb_shot as nat,
                    old(self).current_shot as nat,
                    old(self).salve_timer,
                    dt as nat,
                );
                &&& final(self).shoot_timer == st
                &&& final(self).current_shot == cs
                &&& final(self).salve_timer == sv
                &&& final(self).nb_shot == old(self).nb_shot
                &&& match r {
                    Some(i) => shot == Some(i as nat),
                    None => shot is None,
                }
            }),
    {
        if self.should_shoot() {
            self.shoot_timer.tick(dt);
            if self.shoot_timer.finished() {
                self.shoot_timer.reset();
                let shot = self.current_shot;
                self.current_shot = self.current_shot + 1;
                Some(shot)
            } else {
                None
            }
        } else {
            self.salve_timer.start();
            self.salve_timer.tick(dt);
            if self.salve_timer.finished() {
                self.prepare_to_shoot();
            }
            None
        }
    }
}

impl Spammer {
    pub fn should_shoot(&self) -> (r: bool)
        ensures
            r == (self.nb_shot != self.current_shot),
    {
        self.nb_shot != self.current_shot
    }

    pub fn prepare_to_shoot(&mut self)
        ensures
            final(self).shoot_timer == old(self).shoot_timer.after_reset().with_enabled(true),
            final(self).salve_timer == old(self).salve_timer.after_reset().with_enabled(false),
            final(self).current_shot == 0,
            final(self).nb_shot == old(self).nb_shot,
    {
        self.shoot_timer.reset();
        self.shoot_timer.start();
        self.salve_timer.reset();
        self.salve_timer.stop();
        self.current_shot = 0;
    }

    /// Advance the salvo by `dt` microseconds; the index of the shot fired, if any.
    pub fn update(&mut self, dt: u64) -> (r: Option<usize>)
        requires
            old(self).current_shot != old(self).nb_shot ==> old(self).current_shot < usize::MAX,
        ensures
            old(self).current_shot <= old(self).nb_shot ==> final(self).current_shot <= final(self).nb_shot,
            ({
                let (st, cs, sv, shot) = salvo_step(
                    old(self).shoot_timer,
                    old(self).nb_shot as nat,
                    old(self).current_shot as nat,
                    old(self).salve_timer,
                    dt as nat,
                );
                &&& final(self).shoot_timer == st
                &&& final(self).current_shot == cs
                &&& final(self).salve_timer == sv
                &&& final(self).nb_shot == old(self).nb_shot
                &&& match r {
                    Some(i) => shot == Some(i as nat),
                    None => shot is None,
                }
            }),
    {
        if self.should_shoot() {
            self.shoot_timer.tick(dt);
            if self.shoot_timer.finished() {
                self.shoot_timer.reset();
                let shot = self.current_shot;
                self.current_shot = self.current_shot + 1;
                Some(shot)
            } else {
                None
            }
        } else {
            self.salve_timer.start();
            self.salve_timer.tick(dt);
            if self.salve_timer.finished() {
                self.prepare_to_shoot();
            }
            None
        }
    }
}

/// A salvo never fires more shots than it holds: starting from a shot count at most
/// `nb_shot`, the count stays at most `nb_shot`, and a shot is fired only while the
/// count is below `nb_shot`.
pub proof fn law_salvo_bounded(shoot_timer: Timer, nb_shot: nat, current_shot: nat, salve_timer: Timer, dt: nat)
    requires
        current_shot <= nb_shot,
    ensures
        salvo_step(shoot_timer, nb_shot, current_shot, salve_timer, dt).1 <= nb_shot,
        salvo_step(shoot_timer, nb_shot, current_shot, salve_timer, dt).3 matches Some(i) ==> i
            < nb_shot,
{
}


/// Enemy that shoots missiles at the player when he comes close.
#[derive(Debug, Copy, Clone)]
pub struct Satellite {
    /// Time between missiles
    pub shoot_timer: Timer,
    /// Detection distance for player, in whole world units.
    pub shoot_distance: u32,
}

impl Default for Satellite {
    /// A missile every five seconds when the player is closer than 500 units.
    fn default() -> (r: Self)
        ensures
            r.shoot_distance == 500,
            r.shoot_timer == Timer::of_micros_spec(5_000_000).with_enabled(true),
    {
        Self { shoot_distance: 500, shoot_timer: Timer::running(5_000_000) }
    }
}

/// The behaviour of an enemy.
#[derive(Debug, Copy, Clone)]
pub enum EnemyType {
    /// Follows the player and shoots at him.
    FollowPlayer(Timer),
    Satellite(Satellite),
    Boss1(Boss1),
    /// Deploys kamikazes.
    Carrier { time_between_deploy: Timer, nb_of_spaceships: usize },
    /// Drop some mines.
    MineLander(Timer),
    /// Moves randomly and shoots in four directions.
    Wanderer(Timer),
    Spammer(Spammer),
    /// Will explode when player comes near,
    Mine {
        /// Distance from the player below which the mine will be triggered (whole world units)
        trigger_distance: u32,
        /// Time from when the mine is triggered until the mine explode.
        explosion_timer: Timer,
    },
    /// Go straight towards the player and explode on contact.
    Kamikaze,
    /// last boss.
    LastBoss(LastBoss),
}

/// Bullets shot by an enemy; all patterns are aimed relative to the direction of the player.
#[derive(Debug, Copy, Clone, PartialEq, Eq, Structural)]
pub enum ShotPattern {
    /// One bullet of the given kind, toward the player.
    Straight(BulletType),
    /// Twelve fast bullets every thirty degrees, turned by shot * 7.5 degrees.
    Ring { shot: usize },
    /// Five round bullets: toward the player, at +-45 and +-60 degrees.
    Fan,
    /// Four round bullets: toward the player and every ninety degrees.
    Cross,
}

/// One bullet of a shot: its kind, and its direction in 48ths of a turn (7.5 degrees)
/// counter-clockwise from the direction of the player.
#[derive(Debug, Copy, Clone, PartialEq, Eq, Structural)]
pub struct ShotBullet {
    pub bullet: BulletType,
    pub angle: u32,
}

/// The bullets of a shot, in the order they are spawned.
pub open spec fn pattern_bullets(p: ShotPattern) -> Seq<ShotBullet> {
    match p {
        ShotPattern::Straight(b) => seq![ShotBullet { bullet: b, angle: 0 }],
        ShotPattern::Ring { shot } => Seq::new(
            12,
            |i: int| ShotBullet { bullet: BulletType::Fast, angle: ((4 * i + shot % 48) % 48) as u32 },
        ),
        ShotPattern::Fan => seq![
            ShotBullet { bullet: BulletType::Round1, angle: 0 },
            ShotBullet { bullet: BulletType::Round1, angle: 6 },
            ShotBullet { bullet: BulletType::Round1, angle: 42 },
            ShotBullet { bullet: BulletType::Round1, angle: 40 },
            ShotBullet { bullet: BulletType::Round1, angle: 8 },
        ],
        ShotPattern::Cross => seq![
            ShotBullet { bullet: BulletType::Round1, angle: 0 },
            ShotBullet { bullet: BulletType::Round1, angle: 12 },
            ShotBullet { bullet: BulletType::Round1, angle: 24 },
            ShotBullet { bullet: BulletType::Round1, angle: 36 },
        ],
    }
}

impl ShotPattern {
    /// The bullets to spawn for this shot: one straight bullet; a ring of twelve fast
    /// bullets every 30 degrees, turned by 7.5 degrees per shot of the salvo; a fan of
    /// five round bullets toward the player, at +45, -45, -60 and +60 degrees; a cross of
    /// four round bullets every 90 degrees.
    pub fn bullets(&self) -> (r: Vec<ShotBullet>)
        ensures
            r@ == pattern_bullets(*self),
    {
        let mut out: Vec<ShotBullet> = Vec::new();
        match *self {
            ShotPattern::Straight(b) => {
                out.push(ShotBullet { bullet: b, angle: 0 });
                assert(out@ =~= pattern_bullets(*self));
            },
            ShotPattern::Ring { shot } => {
                let turn: u32 = (shot % 48) as u32;
                let mut i: u32 = 0;
                while i < 12
                    invariant
                        i <= 12,
                        turn == shot % 48,
                        *self == (ShotPattern::Ring { shot }),
                        out@.len() == i,
                        forall|k: int| 0 <= k < i ==> #[trigger] out@[k] == pattern_bullets(*self)[k],
                    decreases 12 - i,
                {
                    out.push(ShotBullet { bullet: BulletType::Fast, angle: (4 * i + turn) % 48 });
                    i = i + 1;
                }
                assert(out@ =~= pattern_bullets(*self));
            },
            ShotPattern::Fan => {
                out.push(ShotBullet { bullet: BulletType::Round1, angle: 0 });
                out.push(ShotBullet { bullet: BulletType::Round1, angle: 6 });
                out.push(ShotBullet { bullet: BulletType::Round1, angle: 42 });
                out.push(ShotBullet { bullet: BulletType::Round1, angle: 40 });
                out.push(ShotBullet { bullet: BulletType::Round1, angle: 8 });
                assert(out@ =~= pattern_bullets(*self));
            },
            ShotPattern::Cross => {
                out.push(ShotBullet { bullet: BulletType::Round1, angle: 0 });
                out.push(ShotBullet { bullet: BulletType::Round1, angle: 12 });
                out.push(ShotBullet { bullet: BulletType::Round1, angle: 24 });
                out.push(ShotBullet { bullet: BulletType::Round1, angle: 36 });
                assert(out@ =~= pattern_bullets(*self));
            },
        }
        out
    }
}

/// Sound played with a shot.
#[derive(Debug, Copy, Clone, PartialEq, Eq, Structural)]
pub enum ShotSound {
    Laser03,
    Laser04,
}

impl ShotSound {
    /// Path of the sound file.
    pub fn path(&self) -> (r: String)
        ensures
            r@ == match *self {
                ShotSound::Laser03 => laser_03(),
                ShotSound::Laser04 => laser_04(),
            },
    {
        match *self {
            ShotSound::Laser03 => "sounds/scifi_kit/Laser/Laser_03.wav",
            ShotSound::Laser04 => "sounds/scifi_kit/Laser/Laser_04.wav",
        }.to_owned()
    }
}

/// What an enemy does this frame.
#[derive(Debug, Copy, Clone, PartialEq, Eq, Structural)]
pub enum EnemyCommand {
    Nothing,
    /// The kamikaze reached the player: it disappears, explodes and counts as killed.
    KamikazeExplode,
    /// Shoot bullets at the player, with a sound.
    Shoot(ShotPattern, ShotSound),
    /// Launch a missile homing on the player.
    LaunchMissile,
    /// Deploy this many kamikazes.
    Deploy(usize),
    /// Drop a mine where the enemy is.
    DropMine,
    /// The mine is armed (plays its animation); it explodes when `explode` is true.
    MineArmed { explode: bool },
}

/// Salvo shooters that are still firing can count one more shot.
pub open spec fn can_update(e: EnemyType) -> bool {
    match e {
        EnemyType::Boss1(b) => b.current_shot != b.nb_shot ==> b.current_shot < usize::MAX,
        EnemyType::LastBoss(b) => b.current_shot != b.nb_shot ==> b.current_shot < usize::MAX,
        EnemyType::Spammer(b) => b.current_shot != b.nb_shot ==> b.current_shot < usize::MAX,
        _ => true,
    }
}

/// Salvo shooters have not fired more shots than their salvo holds.
pub open spec fn salvo_not_past_end(e: EnemyType) -> bool {
    match e {
        EnemyType::Boss1(b) => b.current_shot <= b.nb_shot,
        EnemyType::LastBoss(b) => b.current_shot <= b.nb_shot,
        EnemyType::Spammer(b) => b.current_shot <= b.nb_shot,
        _ => true,
    }
}

/// Next behaviour state of an enemy and what it does, `dt` microseconds later, the
/// player being `dist` units away (whole units, rounded down).
pub open spec fn enemy_step(e: EnemyType, dt: nat, dist: nat) -> (EnemyType, EnemyCommand) {
    match e {
        EnemyType::Kamikaze => (
            e,
            if dist < KAMIKAZE_TRIGGER_DISTANCE {
                EnemyCommand::KamikazeExplode
            } else {
                EnemyCommand::Nothing
            },
        ),
        EnemyType::Carrier { time_between_deploy, nb_of_spaceships } => {
            let t = time_between_deploy.after_tick(dt);
            if t.spec_finished() {
                (
                    EnemyType::Carrier { time_between_deploy: t.after_reset(), nb_of_spaceships },
                    EnemyCommand::Deploy(nb_of_spaceships),
                )
            } else {
                (EnemyType::Carrier { time_between_deploy: t, nb_of_spaceships }, EnemyCommand::Nothing)
            }
        },
        EnemyType::LastBoss(b) => {
            let (st, cs, sv, shot) = salvo_step(b.shoot_timer, b.nb_shot as nat, b.current_shot as nat, b.salve_timer, dt);
            (
                EnemyType::LastBoss(LastBoss { shoot_timer: st, nb_shot: b.nb_shot, current_shot: cs as usize, salve_timer: sv }),
                match shot {
                    Some(i) => EnemyCommand::Shoot(ShotPattern::Ring { shot: i as usize }, ShotSound::Laser04),
                    None => EnemyCommand::Nothing,
                },
            )
        },
        EnemyType::Spammer(b) => {
            let (st, cs, sv, shot) = salvo_step(b.shoot_timer, b.nb_shot as nat, b.current_shot as nat, b.salve_timer, dt);
            (
                EnemyType::Spammer(Spammer { shoot_timer: st, nb_shot: b.nb_shot, current_shot: cs as usize, salve_timer: sv }),
                match shot {
                    Some(_) => EnemyCommand::Shoot(ShotPattern::Fan, ShotSound::Laser04),
                    None => EnemyCommand::Nothing,
                },
            )
        },
        EnemyType::Boss1(b) => {
            let (st, cs, sv, shot) = salvo_step(b.shoot_timer, b.nb_shot as nat, b.current_shot as nat, b.salve_timer, dt);
            (
                EnemyType::Boss1(Boss1 { shoot_timer: st, nb_shot: b.nb_shot, current_shot: cs as usize, salve_timer: sv }),
                match shot {
                    Some(_) => EnemyCommand::Shoot(ShotPattern::Straight(BulletType::Round2), ShotSound::Laser03),
                    None => EnemyCommand::Nothing,
                },
            )
        },
        EnemyType::Satellite(sat) => {
            let t = sat.shoot_timer.after_tick(dt);
            if dist < sat.shoot_distance && t.spec_finished() {
                (
                    EnemyType::Satellite(Satellite { shoot_timer: t.after_reset(), shoot_distance: sat.shoot_distance }),
                    EnemyCommand::LaunchMissile,
                )
            } else {
                (
                    EnemyType::Satellite(Satellite { shoot_timer: t, shoot_distance: sat.shoot_distance }),
                    EnemyCommand::Nothing,
                )
            }
        },
        EnemyType::FollowPlayer(timer) => {
            let t = timer.after_tick(dt);
            if dist < FOLLOWER_SHOOT_DISTANCE && t.spec_finished() {
                (
                    EnemyType::FollowPlayer(t.after_reset()),
                    EnemyCommand::Shoot(ShotPattern::Straight(BulletType::Round2), ShotSound::Laser04),
                )
            } else {
                (EnemyType::FollowPlayer(t), EnemyCommand::Nothing)
            }
        },
        EnemyType::Wanderer(timer) => {
            let t = timer.after_tick(dt);
            if t.spec_finished() {
                (EnemyType::Wanderer(t.after_reset()), EnemyCommand::Shoot(ShotPattern::Cross, ShotSound::Laser04))
            } else {
                (EnemyType::Wanderer(t), EnemyCommand::Nothing)
            }
        },
        EnemyType::MineLander(timer) => {
            let t = timer.after_tick(dt);
            if t.spec_finished() {
                (EnemyType::MineLander(t.after_reset()), EnemyCommand::DropMine)
            } else {
                (EnemyType::MineLander(t), EnemyCommand::Nothing)
            }
        },
        EnemyType::Mine { trigger_distance, explosion_timer } => {
            if explosion_timer.spec_enabled() {
                let t = explosion_timer.after_tick(dt);
                (
                    EnemyType::Mine { trigger_distance, explosion_timer: t },
                    EnemyCommand::MineArmed { explode: t.spec_finished() },
                )
            } else if dist < trigger_distance {
                (
                    EnemyType::Mine {
                        trigger_distance,
                        explosion_timer: explosion_timer.after_reset().with_enabled(true),
                    },
                    EnemyCommand::Nothing,
                )
            } else {
                (e, EnemyCommand::Nothing)
            }
        },
    }
}

/// Does the command fire something on a timer: bullets, a missile, kamikazes or a mine?
pub open spec fn fires(c: EnemyCommand) -> bool {
    c is Shoot || c is LaunchMissile || c is Deploy || c is DropMine
}

/// The timer between two shots (missiles, deployments, mines) of an enemy, if it
/// shoots on a timer.
pub open spec fn fire_timer(e: EnemyType) -> Option<Timer> {
    match e {
        EnemyType::Carrier { time_between_deploy, .. } => Some(time_between_deploy),
        EnemyType::LastBoss(b) => Some(b.shoot_timer),
        EnemyType::Spammer(b) => Some(b.shoot_timer),
        EnemyType::Boss1(b) => Some(b.shoot_timer),
        EnemyType::Satellite(sat) => Some(sat.shoot_timer),
        EnemyType::FollowPlayer(t) => Some(t),
        EnemyType::Wanderer(t) => Some(t),
        EnemyType::MineLander(t) => Some(t),
        EnemyType::Kamikaze | EnemyType::Mine { .. } => None,
    }
}

/// An enemy fires only once its timer ran out, and firing restarts the timer: after a
/// shot (or missile, deployment, mine) the timer has nothing elapsed and the same
/// deadline, so a frame shorter than the deadline right after fires nothing, wherever
/// the player is.
pub proof fn law_firing_restarts_the_timer(e: EnemyType, dt: nat, dist: nat, dt2: nat, dist2: nat)
    requires
        fires(enemy_step(e, dt, dist).1),
    ensures
        fire_timer(e) matches Some(t) && t.after_tick(dt).spec_finished(),
        fire_timer(enemy_step(e, dt, dist).0) matches Some(t2) && t2.spec_elapsed() == 0
            && t2.spec_deadline() == fire_timer(e)->0.spec_deadline(),
        dt2 < fire_timer(e)->0.spec_deadline() ==> !fires(enemy_step(enemy_step(e, dt, dist).0, dt2, dist2).1),
{
    match e {
        EnemyType::LastBoss(b) => {
            lemma_salvo_shot_restarts(b.shoot_timer, b.nb_shot as nat, b.current_shot as nat, b.salve_timer, dt, dt2);
        },
        EnemyType::Spammer(b) => {
            lemma_salvo_shot_restarts(b.shoot_timer, b.nb_shot as nat, b.current_shot as nat, b.salve_timer, dt, dt2);
        },
        EnemyType::Boss1(b) => {
            lemma_salvo_shot_restarts(b.shoot_timer, b.nb_shot as nat, b.current_shot as nat, b.salve_timer, dt, dt2);
        },
        _ => {
            if let Some(t) = fire_timer(e) {
                Timer::lemma_transitions(t, dt, true);
                Timer::lemma_transitions(t.after_tick(dt), dt, true);
                Timer::lemma_transitions(t.after_tick(dt).after_reset(), dt2, true);
            }
        },
    }
}

/// When an enemy fires, and that it does fire once due: a satellite launches a missile
/// when its timer ran out and the player is within its range, a follower shoots when
/// its timer ran out and the player is closer than `FOLLOWER_SHOOT_DISTANCE`, a
/// wanderer shoots, a mine lander drops a mine and a carrier deploys its kamikazes each
/// time their timer runs out; a kamikaze explodes when the player is closer than
/// `KAMIKAZE_TRIGGER_DISTANCE`.
pub proof fn law_enemies_fire_when_due(e: EnemyType, dt: nat, dist: nat)
    ensures
        e matches EnemyType::Satellite(sat) ==> ((enemy_step(e, dt, dist).1 == EnemyCommand::LaunchMissile) <==> (
        sat.shoot_timer.after_tick(dt).spec_finished() && dist < sat.shoot_distance)),
        e matches EnemyType::FollowPlayer(t) ==> (fires(enemy_step(e, dt, dist).1) <==> (t.after_tick(dt).spec_finished()
            && dist < FOLLOWER_SHOOT_DISTANCE)),
        e matches EnemyType::Wanderer(t) ==> (fires(enemy_step(e, dt, dist).1) <==> t.after_tick(dt).spec_finished()),
        e matches EnemyType::MineLander(t) ==> ((enemy_step(e, dt, dist).1 == EnemyCommand::DropMine)
            <==> t.after_tick(dt).spec_finished()),
        e matches EnemyType::Carrier { time_between_deploy, nb_of_spaceships } ==> ((enemy_step(e, dt, dist).1
            == EnemyCommand::Deploy(nb_of_spaceships)) <==> time_between_deploy.after_tick(dt).spec_finished()),
        e is Kamikaze ==> ((enemy_step(e, dt, dist).1 == EnemyCommand::KamikazeExplode) <==> dist
            < KAMIKAZE_TRIGGER_DISTANCE),
        e is Kamikaze ==> enemy_step(e, dt, dist).0 == e,
{
}

/// A salvo shooter fires shot number `current_shot` when its salvo is not over and its
/// shot timer ran out, and counts it; once the salvo is over it fires nothing, and when
/// the pause between salvos ran out the next salvo starts from its first shot.
pub proof fn law_salvo_shots(st: Timer, nb: nat, cs: nat, sv: Timer, dt: nat)
    ensures
        (salvo_step(st, nb, cs, sv, dt).3 == Some(cs)) <==> (nb != cs && st.after_tick(dt).spec_finished()),
        salvo_step(st, nb, cs, sv, dt).3 is Some ==> salvo_step(st, nb, cs, sv, dt).1 == cs + 1,
        salvo_step(st, nb, cs, sv, dt).3 is None ==> salvo_step(st, nb, cs, sv, dt).1 == cs || salvo_step(
            st,
            nb,
            cs,
            sv,
            dt,
        ).1 == 0,
        nb == cs ==> salvo_step(st, nb, cs, sv, dt).3 is None,
        nb == cs ==> (salvo_step(st, nb, cs, sv, dt).1 == 0 <==> (cs == 0 || sv.with_enabled(true).after_tick(
            dt,
        ).spec_finished())),
{
}

/// A salvo shot restarts the shot timer, so the next shot of the salvo waits for it.
proof fn lemma_salvo_shot_restarts(st: Timer, nb: nat, cs: nat, sv: Timer, dt: nat, dt2: nat)
    requires
        salvo_step(st, nb, cs, sv, dt).3 is Some,
    ensures
        st.after_tick(dt).spec_finished(),
        salvo_step(st, nb, cs, sv, dt).0.spec_elapsed() == 0,
        salvo_step(st, nb, cs, sv, dt).0.spec_deadline() == st.spec_deadline(),
        forall|nb2: nat, cs2: nat, sv2: Timer|
            dt2 < st.spec_deadline() ==> #[trigger] salvo_step(salvo_step(st, nb, cs, sv, dt).0, nb2, cs2, sv2, dt2).3
                is None,
{
    let t = st.after_tick(dt).after_reset();
    Timer::lemma_transitions(st, dt, true);
    Timer::lemma_transitions(st.after_tick(dt), dt, true);
    Timer::lemma_transitions(t, dt2, true);
    assert(salvo_step(st, nb, cs, sv, dt).0 == t);
}

impl EnemyType {
    /// What the enemy does this frame: `dt` microseconds went by and the player is
    /// `distance_to_player` units away (whole units, rounded down).
    pub fn update(&mut self, dt: u64, distance_to_player: u32) -> (r: EnemyCommand)
        requires
            can_update(*old(self)),
        ensures
            (*final(self), r) == enemy_step(*old(self), dt as nat, distance_to_player as nat),
            salvo_not_past_end(*old(self)) ==> salvo_not_past_end(*final(self)),
    {
        match self {
            EnemyType::Kamikaze => {
                if distance_to_player < KAMIKAZE_TRIGGER_DISTANCE {
                    EnemyCommand::KamikazeExplode
                } else {
                    EnemyCommand::Nothing
                }
            },
            EnemyType::Carrier { nb_of_spaceships, time_between_deploy } => {
                time_between_deploy.tick(dt);
                if time_between_deploy.finished() {
                    time_between_deploy.reset();
                    EnemyCommand::Deploy(*nb_of_spaceships)
                } else {
                    EnemyCommand::Nothing
                }
            },
            EnemyType::LastBoss(boss) => {
                match boss.update(dt) {
                    Some(shot) => EnemyCommand::Shoot(ShotPattern::Ring { shot }, ShotSound::Laser04),
                    None => EnemyCommand::Nothing,
                }
            },
            EnemyType::Spammer(spammer) => {
                match spammer.update(dt) {
                    Some(_) => EnemyCommand::Shoot(ShotPattern::Fan, ShotSound::Laser04),
                    None => EnemyCommand::Nothing,
                }
            },
            EnemyType::Boss1(boss1) => {
                match boss1.update(dt) {
                    Some(_) => EnemyCommand::Shoot(ShotPattern::Straight(BulletType::Round2), ShotSound::Laser03),
                    None => EnemyCommand::Nothing,
                }
            },
            EnemyType::Satellite(sat) => {
                // If the player is really close, will shoot some missiles.
                sat.shoot_timer.tick(dt);
                if distance_to_player < sat.shoot_distance && sat.shoot_timer.finished() {
                    sat.shoot_timer.reset();
                    EnemyCommand::LaunchMissile
                } else {
                    EnemyCommand::Nothing
                }
            },
            EnemyType::FollowPlayer(shoot_timer) => {
                // shoot if it's time.
                shoot_timer.tick(dt);
                if distance_to_player < FOLLOWER_SHOOT_DISTANCE && shoot_timer.finished() {
                    shoot_timer.reset();
                    EnemyCommand::Shoot(ShotPattern::Straight(BulletType::Round2), ShotSound::Laser04)
                } else {
                    EnemyCommand::Nothing
                }
            },
            EnemyType::Wanderer(timer) => {
                timer.tick(dt);
                if timer.finished() {
                    timer.reset();
                    EnemyCommand::Shoot(ShotPattern::Cross, ShotSound::Laser04)
                } else {
                    EnemyCommand::Nothing
                }
            },
            EnemyType::MineLander(timer) => {
                timer.tick(dt);
                if timer.finished() {
                    timer.reset();
                    EnemyCommand::DropMine
                } else {
                    EnemyCommand::Nothing
                }
            },
            EnemyType::Mine { trigger_distance, explosion_timer } => {
                if explosion_timer.is_enabled() {
                    explosion_timer.tick(dt);
                    EnemyCommand::MineArmed { explode: explosion_timer.finished() }
                } else {
                    if distance_to_player < *trigger_distance {
                        // BOOM
                        explosion_timer.reset();
                        explosion_timer.start();
                    }
                    EnemyCommand::Nothing
                }
            },
        }
    }
}

/// How an enemy moves; the steering itself works on world positions.
#[derive(Debug, Copy, Clone, PartialEq, Eq, Structural)]
pub enum MovementKind {
    /// Move toward the player. Avoid basic obstacles
    Follow,
    /// Move towards player. Avoid nothing. Very blunt.
    GoToPlayer,
    /// Follow a path. Each point will be randomly generated.
    RandomPath,
    /// Do not move.
    Nothing,
}

impl Default for MovementKind {
    fn default() -> (r: Self)
        ensures
            r == MovementKind::Follow,
    {
        MovementKind::Follow
    }
}

/// An enemy of the game: its behaviour and what it leaves when it dies.
#[derive(Debug, Copy, Clone)]
pub struct Enemy {
    pub enemy_type: EnemyType,
    /// amount of scrap to give to the player (lowest, highest).
    pub scrap_drop: (u32, u32),
    /// % of chance to drop a pickup.
    pub pickup_drop_percent: u8,
    pub movement: MovementKind,
}

impl Default for Enemy {
    /// An enemy that follows the player and shoots every four seconds, dropping between
    /// 10 and 50 scrap and never a pickup.
    fn default() -> (r: Self)
        ensures
            r.enemy_type == EnemyType::FollowPlayer(Timer::of_micros_spec(4_000_000).with_enabled(true)),
            r.pickup_drop_percent == 0,
            r.scrap_drop == (10u32, 50u32),
            r.movement == MovementKind::Follow,
    {
        Self {
            enemy_type: EnemyType::FollowPlayer(Timer::running(4_000_000)),
            pickup_drop_percent: 0,
            scrap_drop: (10, 50),
            movement: MovementKind::Follow,
        }
    }
}

/// A closed path of points (world positions) followed by an enemy.
#[derive(Debug)]
pub struct Route<P> {
    pub path: Vec<P>,
    pub current: usize,
}

impl<P: Copy> Route<P> {
    /// The point the enemy is heading to; `None` when the route is empty or the
    /// current index is past its end.
    pub fn get_current(&self) -> (r: Option<P>)
        ensures
            r == if self.current < self.path@.len() {
                Some(self.path@[self.current as int])
            } else {
                None
            },
    {
        if self.current < self.path.len() {
            Some(self.path[self.current])
        } else {
            None
        }
    }

    /// Head to the next point, back to the first one after the last.
    pub fn go_to_next(&mut self)
        requires
            old(self).path@.len() > 0,
        ensures
            final(self).current == (old(self).current + 1) % (old(self).path@.len() as int),
            final(self).path@ == old(self).path@,
    {
        self.current = ((self.current as u128 + 1) % (self.path.len() as u128)) as usize;
    }
}

} // verus!
