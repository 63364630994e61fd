use crate::bullet::BulletType;
use crate::gameplay::{x_axis, x_axis_spec, y_axis, y_axis_spec, z_axis, z_axis_spec, Action};
use crate::input::{axis_value, Input};
use crate::pickup::Items;
use crate::random::RandomGenerator;
use crate::timer::Timer;
use vstd::prelude::*;

verus! {

broadcast use crate::timer::group_timer;

/// Weapons of the player.
#[derive(Debug, Clone, Copy, PartialEq, Eq, Structural)]
pub enum Weapon {
    Simple,
}

/// Critical when the number drawn is at most the critical chance.
pub open spec fn spec_crit(pick: u32, crit_percent: u32) -> bool {
    pick <= crit_percent
}

/// A missile when the number drawn is below the missile chance.
pub open spec fn spec_missile(pick: u32, missile_percent: u32) -> bool {
    pick < missile_percent
}

/// Is a shot critical, `pick` being the number drawn in `[0, 100]`? It is when the
/// number is at most `crit_percent`.
pub fn crit_for_pick(pick: u32, crit_percent: u32) -> (r: bool)
    ensures
        r == spec_crit(pick, crit_percent),
{
    pick <= crit_percent
}

/// Does a shot come with a missile, `pick` being the number drawn in `[0, 100]`? It
/// does when the number is below `missile_percent`.
pub fn missile_for_pick(pick: u32, missile_percent: u32) -> (r: bool)
    ensures
        r == spec_missile(pick, missile_percent),
{
    pick < missile_percent
}

/// Is a shot critical? A number of `[0, 100]` is drawn at random (see `crit_for_pick`).
pub fn is_crit(crit_percent: u32, random: &mut RandomGenerator) -> (r: bool)
    ensures
        exists|pick: u32| pick <= 100 && r == #[trigger] spec_crit(pick, crit_percent),
        final(random).spec_draws().len() == old(random).spec_draws().len() + 1,
        final(random).spec_draws().take(old(random).spec_draws().len() as int) == old(random).spec_draws(),
        final(random).spec_draws().last() <= 100,
        r == spec_crit(final(random).spec_draws().last(), crit_percent),
{
    let pick = random.draw_u32(0, 101);
    proof {
        assert(random.spec_draws().take(old(random).spec_draws().len() as int) =~= old(random).spec_draws());
    }
    crit_for_pick(pick, crit_percent)
}

/// Does a shot come with a missile? A number of `[0, 100]` is drawn at random (see
/// `missile_for_pick`).
pub fn should_shoot_missile(missile_percent: u32, random: &mut RandomGenerator) -> (r: bool)
    ensures
        exists|pick: u32| pick <= 100 && r == #[trigger] spec_missile(pick, missile_percent),
        final(random).spec_draws().len() == old(random).spec_draws().len() + 1,
        final(random).spec_draws().take(old(random).spec_draws().len() as int) == old(random).spec_draws(),
        final(random).spec_draws().last() <= 100,
        r == spec_missile(final(random).spec_draws().last(), missile_percent),
{
    let pick = random.draw_u32(0, 101);
    proof {
        assert(random.spec_draws().take(old(random).spec_draws().len() as int) =~= old(random).spec_draws());
    }
    missile_for_pick(pick, missile_percent)
}

/// Boost of the player's ship: the cooldown runs by `dt` microseconds; once it ran
/// out, a press of the boost key boosts the ship and restarts the cooldown.
pub fn update_boost(boost_timer: &mut Timer, dt: u64, boost_just_pressed: bool) -> (r: bool)
    ensures
        r == (old(boost_timer).after_tick(dt as nat).spec_finished() && boost_just_pressed),
        *final(boost_timer) == if r {
            old(boost_timer).after_tick(dt as nat).after_reset()
        } else {
            old(boost_timer).after_tick(dt as nat)
        },
{
    boost_timer.tick(dt);
    if boost_timer.finished() && boost_just_pressed {
        boost_timer.reset();
        true
    } else {
        false
    }
}

/// The player's statistics that are counted in whole numbers: chances in percent,
/// and the cooldown of the boost.
#[derive(Debug, Copy, Clone)]
pub struct PlayerStats {
    /// between 0 and 100.
    pub crit_percent: u32,
    /// % change to shoot a missile when shooting
    pub missile_percent: u32,
    /// Time between boosts
    pub boost_timer: Timer,
}

impl Default for PlayerStats {
    /// 5% of critical shots, no missile, a boost every second.
    fn default() -> (r: Self)
        ensures
            r.crit_percent == 5,
            r.missile_percent == 0,
            r.boost_timer == Timer::of_micros_spec(1_000_000).with_enabled(true),
    {
        PlayerStats { crit_percent: 5, missile_percent: 0, boost_timer: Timer::running(1_000_000) }
    }
}

/// Sound of the player's shot.
pub const PLAYER_SHOT_SOUND: &'static str = "sounds/scifi_kit/Laser/Laser_09.wav";

/// Bullets shot by the player.
pub const PLAYER_BULLET: BulletType = BulletType::Twin;

/// A shot of the player: critical or not, with a missile or not.
#[derive(Debug, Copy, Clone, PartialEq, Eq, Structural)]
pub struct PlayerShot {
    pub is_crit: bool,
    pub missile: bool,
}

/// The shot for the numbers drawn: `crit_pick` for the critical chance, then
/// `missile_pick` for the missile chance.
pub fn shot_for_picks(crit_pick: u32, missile_pick: u32, stats: &PlayerStats) -> (r: PlayerShot)
    ensures
        r.is_crit == spec_crit(crit_pick, stats.crit_percent),
        r.missile == spec_missile(missile_pick, stats.missile_percent),
{
    PlayerShot {
        is_crit: crit_for_pick(crit_pick, stats.crit_percent),
        missile: missile_for_pick(missile_pick, stats.missile_percent),
    }
}

/// A shot drawn from the generator: two numbers of `[0, 100]` were drawn, the first
/// for the critical chance, the second for the missile chance, and the shot is
/// critical, or comes with a missile, as those numbers say.
pub open spec fn shot_follows_draws(
    shot: PlayerShot,
    before: Seq<u32>,
    after: Seq<u32>,
    crit_percent: u32,
    missile_percent: u32,
) -> bool {
    let n = before.len() as int;
    &&& after.len() == n + 2
    &&& after.take(n) == before
    &&& after[n] <= 100 && after[n + 1] <= 100
    &&& shot.is_crit == (after[n] <= crit_percent)
    &&& shot.missile == (after[n + 1] < missile_percent)
}

/// Whatever the critical chance below 100 percent, a shot drawn with a number above it
/// is not critical, and one drawn with a number at most it is: the draw decides.
pub proof fn law_crit_follows_the_draw(shot: PlayerShot, before: Seq<u32>, after: Seq<u32>, crit_percent: u32, missile_percent: u32)
    requires
        shot_follows_draws(shot, before, after, crit_percent, missile_percent),
    ensures
        shot.is_crit <==> after[before.len() as int] <= crit_percent,
        after[before.len() as int] > crit_percent ==> !shot.is_crit,
        shot.missile <==> after[before.len() as int + 1] < missile_percent,
{
}

/// What the player's ship does this frame; the forces and angles follow from it.
#[derive(Debug, Copy, Clone, PartialEq, Eq, Structural)]
pub struct PlayerFrame {
    /// Strafe axis (`x_axis`).
    pub lateral: i8,
    /// Thrust axis (`y_axis`).
    pub forward: i8,
    /// Rotation axis (`z_axis`).
    pub rotation: i8,
    /// The engine trail shows while thrusting forward.
    pub show_trail: bool,
    /// The ship boosts.
    pub boost: bool,
    /// The ship shoots.
    pub shot: Option<PlayerShot>,
}

/// One frame of the player's ship, `dt` microseconds long: read the axes, run the
/// boost cooldown (see `update_boost`), and shoot when the shoot action was just
/// pressed, drawing the critical chance then the missile chance.
pub fn player_frame(input: &Input<Action>, stats: &mut PlayerStats, dt: u64, random: &mut RandomGenerator) -> (r:
    PlayerFrame)
    ensures
        r.lateral == axis_value(input.spec_pressed(), x_axis_spec()),
        r.forward == axis_value(input.spec_pressed(), y_axis_spec()),
        r.rotation == axis_value(input.spec_pressed(), z_axis_spec()),
        r.show_trail == (r.forward > 0),
        r.boost == (old(stats).boost_timer.after_tick(dt as nat).spec_finished()
            && input.spec_just_pressed().contains(Action::Boost)),
        final(stats).boost_timer == if r.boost {
            old(stats).boost_timer.after_tick(dt as nat).after_reset()
        } else {
            old(stats).boost_timer.after_tick(dt as nat)
        },
        final(stats).crit_percent == old(stats).crit_percent,
        final(stats).missile_percent == old(stats).missile_percent,
        r.shot is Some <==> input.spec_just_pressed().contains(Action::Shoot),
        r.shot matches Some(shot) ==> exists|crit_pick: u32, missile_pick: u32|
            crit_pick <= 100 && missile_pick <= 100 && shot.is_crit == #[trigger] spec_crit(
                crit_pick,
                old(stats).crit_percent,
            ) && shot.missile == #[trigger] spec_missile(missile_pick, old(stats).missile_percent),
        r.shot is None ==> final(random).spec_draws() == old(random).spec_draws(),
        r.shot matches Some(shot) ==> shot_follows_draws(
            shot,
            old(random).spec_draws(),
            final(random).spec_draws(),
            old(stats).crit_percent,
            old(stats).missile_percent,
        ),
{
    let lateral = input.get_axis(x_axis());
    let forward = input.get_axis(y_axis());
    let rotation = input.get_axis(z_axis());
    let boost = update_boost(&mut stats.boost_timer, dt, input.is_just_pressed(Action::Boost));
    let shot = if input.is_just_pressed(Action::Shoot) {
        let crit_pick = random.draw_u32(0, 101);
        let missile_pick = random.draw_u32(0, 101);
        proof {
            assert(random.spec_draws().take(old(random).spec_draws().len() as int) =~= old(random).spec_draws());
        }
        Some(shot_for_picks(crit_pick, missile_pick, stats))
    } else {
        None
    };
    PlayerFrame { lateral, forward, rotation, show_trail: forward > 0, boost, shot }
}

/// Sound of a pickup picked up.
pub const PICKUP_SOUND: &'static str = "sounds/powerUp2.mp3";

impl Items {
    /// The part of the item's effect counted in percent: critical chance and missile
    /// chance go up by 10; the other items act on the ship's hull, shield, speed and
    /// damage.
    pub fn apply_to_stats(&self, stats: &mut PlayerStats)
        requires
            old(stats).crit_percent + 10 <= u32::MAX,
            old(stats).missile_percent + 10 <= u32::MAX,
        ensures
            final(stats).boost_timer == old(stats).boost_timer,
            final(stats).crit_percent == old(stats).crit_percent + if *self == Items::CritChance {
                10int
            } else {
                0
            },
            final(stats).missile_percent == old(stats).missile_percent + if *self == Items::Missile {
                10int
            } else {
                0
            },
    {
        match self {
            Items::CritChance => stats.crit_percent = stats.crit_percent + 10,
            Items::Missile => stats.missile_percent = stats.missile_percent + 10,
            _ => {},
        }
    }
}

} // verus!
