use crate::entity::EntityId;
use crate::timer::Timer;
use vstd::prelude::*;

verus! {

broadcast use crate::timer::group_timer;

/// What a death causes.
#[derive(Debug, Copy, Clone, PartialEq, Eq, Structural)]
pub enum DeathEvent {
    /// The player died: the game is over.
    GameOver,
    /// Remove the dead entity.
    Delete(EntityId),
    /// An enemy died, with its scrap drop: lowest, highest.
    EnemyDied(EntityId, u32, u32),
}

/// Events of the death of `entity`: the game is over when it is the player, else the
/// entity is removed; an enemy also reports its death with its scrap drop.
pub open spec fn death_events_of(entity: EntityId, is_player: bool, enemy_drop: Option<(u32, u32)>) -> Seq<
    DeathEvent,
> {
    (if is_player {
        seq![DeathEvent::GameOver]
    } else {
        seq![DeathEvent::Delete(entity)]
    }) + match enemy_drop {
        Some((low, high)) => seq![DeathEvent::EnemyDied(entity, low, high)],
        None => Seq::empty(),
    }
}

/// The events of a death (see `death_events_of`).
pub fn death_events(entity: EntityId, is_player: bool, enemy_drop: Option<(u32, u32)>) -> (r: Vec<DeathEvent>)
    ensures
        r@ == death_events_of(entity, is_player, enemy_drop),
{
    let mut events: Vec<DeathEvent> = Vec::new();
    if is_player {
        events.push(DeathEvent::GameOver);
    } else {
        events.push(DeathEvent::Delete(entity));
    }
    if let Some((low, high)) = enemy_drop {
        events.push(DeathEvent::EnemyDied(entity, low, high));
    }
    assert(events@ =~= death_events_of(entity, is_player, enemy_drop));
    events
}

/// Whether hits count on a hull, and the countdown of invulnerability after a hit.
#[derive(Debug, Copy, Clone)]
pub struct Hittable {
    pub hittable: bool,
    pub invulnerability_timer: Timer,
}

impl Hittable {
    /// A hull that counts hits; `invulnerability_timer` says how long it ignores them
    /// after a hit it survived.
    pub fn new(invulnerability_timer: Timer) -> (r: Self)
        ensures
            r.hittable,
            r.invulnerability_timer == invulnerability_timer,
    {
        Hittable { hittable: true, invulnerability_timer }
    }

    /// A hit that left the entity alive: hits do not count until the countdown ran out.
    pub fn start_invulnerability(&mut self)
        ensures
            !final(self).hittable,
            final(self).invulnerability_timer == old(self).invulnerability_timer.after_reset().with_enabled(
                true,
            ),
    {
        self.hittable = false;
        self.invulnerability_timer.reset();
        self.invulnerability_timer.start();
    }

    /// One frame of `dt` microseconds: the countdown runs; when hits did not count and
    /// the countdown ran out, they count again and the countdown is reset and stopped.
    /// True in that case (the entity stops blinking).
    pub fn update(&mut self, dt: u64) -> (r: bool)
        ensures
            ({
                let t = old(self).invulnerability_timer.after_tick(dt as nat);
                &&& r == (!old(self).hittable && t.spec_finished())
                &&& final(self).hittable == (old(self).hittable || r)
                &&& final(self).invulnerability_timer == if r {
                    t.after_reset().with_enabled(false)
                } else {
                    t
                }
            }),
    {
        self.invulnerability_timer.tick(dt);
        if !self.hittable && self.invulnerability_timer.finished() {
            self.hittable = true;
            self.invulnerability_timer.reset();
            self.invulnerability_timer.stop();
            true
        } else {
            false
        }
    }
}

/// What the game does after a hit.
#[derive(Debug)]
pub struct HitResult {
    /// The events of the death of the entity hit, if it died.
    pub events: Vec<DeathEvent>,
    /// An explosion is shown where the entity died.
    pub explosion: bool,
    /// The entity blinks while it is invulnerable.
    pub blink: bool,
}

/// Does the hit kill: points reach an entity without hull, or a hull that counts hits
/// and is empty once they were taken off?
pub open spec fn hit_kills(hull: Option<Hittable>, reaches_hull: bool, dead: bool) -> bool {
    reaches_hull && match hull {
        None => true,
        Some(h) => h.hittable && dead,
    }
}

/// Do the points left after the shield come off the hull? They do when some are left
/// and the entity has a hull that counts hits.
pub open spec fn hull_takes_points_spec(hull: Option<Hittable>, reaches_hull: bool) -> bool {
    reaches_hull && (hull matches Some(h) && h.hittable)
}

/// The hull after a hit: one that survives it starts its invulnerability; any other
/// is left as it was.
pub open spec fn hull_after_hit(hull: Option<Hittable>, reaches_hull: bool, dead: bool) -> Option<Hittable> {
    if hull_takes_points_spec(hull, reaches_hull) && !dead {
        Some(
            Hittable {
                hittable: false,
                invulnerability_timer: hull->0.invulnerability_timer.after_reset().with_enabled(true),
            },
        )
    } else {
        hull
    }
}

/// Do the points left after the shield come off the hull (see `resolve_hit`)?
pub fn hull_takes_points(hull: &Option<Hittable>, reaches_hull: bool) -> (r: bool)
    ensures
        r == hull_takes_points_spec(*hull, reaches_hull),
{
    match hull {
        Some(h) => reaches_hull && h.hittable,
        None => false,
    }
}

/// A hit on `entity`, once its shield took what it could. `reaches_hull` tells whether
/// points are left after the shield; `dead` whether the hull has no points left once
/// they were taken off, which the caller does when `hull_takes_points` says so.
///
/// - No point left: nothing happens.
/// - No hull: the entity dies.
/// - A hull that does not count hits (invulnerable): the hit is ignored.
/// - Otherwise the entity dies when its hull is empty; if it survives, it becomes
///   invulnerable and blinks.
///
/// A death gives the death events (see `death_events_of`) and an explosion.
pub fn resolve_hit(
    hull: &mut Option<Hittable>,
    reaches_hull: bool,
    dead: bool,
    entity: EntityId,
    is_player: bool,
    enemy_drop: Option<(u32, u32)>,
) -> (r: HitResult)
    ensures
        ({
            let dies = hit_kills(*old(hull), reaches_hull, dead);
            let survives = hull_takes_points_spec(*old(hull), reaches_hull) && !dead;
            &&& r.events@ == if dies {
                death_events_of(entity, is_player, enemy_drop)
            } else {
                Seq::empty()
            }
            &&& r.explosion == dies
            &&& r.blink == survives
            &&& *final(hull) == hull_after_hit(*old(hull), reaches_hull, dead)
        }),
{
    if !reaches_hull {
        return HitResult { events: Vec::new(), explosion: false, blink: false };
    }
    match hull {
        None => HitResult { events: death_events(entity, is_player, enemy_drop), explosion: true, blink: false },
        Some(h) => {
            if !h.hittable {
                HitResult { events: Vec::new(), explosion: false, blink: false }
            } else if dead {
                HitResult { events: death_events(entity, is_player, enemy_drop), explosion: true, blink: false }
            } else {
                h.start_invulnerability();
                HitResult { events: Vec::new(), explosion: false, blink: true }
            }
        },
    }
}

/// A hit on a hull that does not count hits changes nothing and kills nobody: the hull
/// keeps its points, and a second hit during the invulnerability is ignored.
pub proof fn law_invulnerable_hull_ignores_hits(h: Hittable, reaches_hull: bool)
    requires
        !h.hittable,
    ensures
        !hull_takes_points_spec(Some(h), reaches_hull),
        forall|dead: bool| !#[trigger] hit_kills(Some(h), reaches_hull, dead),
{
}

/// Of two hits in a row, the second takes nothing off a hull that survived the first
/// and cannot kill it: the hull ignores hits until its invulnerability ran out.
pub proof fn law_second_hit_is_ignored(
    hull: Option<Hittable>,
    reaches_first: bool,
    reaches_second: bool,
    dead_second: bool,
)
    requires
        hull_takes_points_spec(hull, reaches_first),
    ensures
        !hull_takes_points_spec(hull_after_hit(hull, reaches_first, false), reaches_second),
        !hit_kills(hull_after_hit(hull, reaches_first, false), reaches_second, dead_second),
        hull_after_hit(hull_after_hit(hull, reaches_first, false), reaches_second, dead_second)
            == hull_after_hit(hull, reaches_first, false),
{
}

/// The countdown, after each hit, before a shield refills.
#[derive(Debug, Copy, Clone)]
pub struct ShieldRecharge {
    pub timer_until_replenish: Timer,
}

impl ShieldRecharge {
    /// A hit on the shield: the countdown starts again.
    pub fn on_hit(&mut self)
        ensures
            final(self).timer_until_replenish == old(self).timer_until_replenish.after_reset().with_enabled(
                true,
            ),
    {
        self.timer_until_replenish.reset();
        self.timer_until_replenish.start();
    }

    /// One frame of `dt` microseconds: the countdown runs; true when the shield refills
    /// during this frame.
    pub fn update(&mut self, dt: u64) -> (refill: bool)
        ensures
            final(self).timer_until_replenish == old(self).timer_until_replenish.after_tick(dt as nat),
            refill == final(self).timer_until_replenish.spec_finished(),
    {
        self.timer_until_replenish.tick(dt);
        self.timer_until_replenish.finished()
    }
}

} // verus!
