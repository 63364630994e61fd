use crate::entity::EntityId;
use vstd::prelude::*;

verus! {

/// Layers of the collision system; a body is in one or more layers and collides with
/// the layers of its mask.
#[derive(Debug, Copy, Clone, PartialEq, Eq, Structural)]
pub struct CollisionLayer {
    pub bits: u32,
}

impl CollisionLayer {
    pub const NOTHING: u32 = 0b1000000000000;
    pub const PLAYER: u32 = 0b00000001;
    pub const ENEMY: u32 = 0b00000010;
    pub const PLAYER_BULLET: u32 = 0b00000100;
    pub const ENEMY_BULLET: u32 = 0b00001000;
    pub const ASTEROID: u32 = 0b00010000;
    pub const MISSILE: u32 = 0b00100000;
    pub const PICKUP: u32 = 0b01000000;
    pub const MINE: u32 = 0b010000000;

    /// The layers of the given bits.
    pub fn from_bits(bits: u32) -> (r: CollisionLayer)
        ensures
            r.bits == bits,
    {
        CollisionLayer { bits }
    }

    /// The layers of both.
    pub fn union(self, other: CollisionLayer) -> (r: CollisionLayer)
        ensures
            r.bits == self.bits | other.bits,
    {
        CollisionLayer { bits: self.bits | other.bits }
    }

    /// True when the two share a layer.
    pub fn intersects(self, other: CollisionLayer) -> (r: bool)
        ensures
            r == (self.bits & other.bits != 0),
    {
        self.bits & other.bits != 0
    }
}

/// What the collision system knows of a body besides its shape: its layers and the
/// layers it collides with (all of them when there is no mask).
#[derive(Debug, Copy, Clone, PartialEq, Eq, Structural)]
pub struct CollisionFilter {
    pub collision_layer: CollisionLayer,
    pub collision_mask: Option<CollisionLayer>,
}

/// Can the two bodies collide? When the second body has a mask, it decides: the first
/// body must be in one of its layers. Otherwise the first body's mask decides. Two
/// bodies without masks do not collide.
pub open spec fn spec_can_collide(a: CollisionFilter, b: CollisionFilter) -> bool {
    match (b.collision_mask, a.collision_mask) {
        (Some(mask), _) => a.collision_layer.bits & mask.bits != 0,
        (None, Some(mask)) => b.collision_layer.bits & mask.bits != 0,
        (None, None) => false,
    }
}

impl CollisionFilter {
    pub fn can_collide(&self, other: &CollisionFilter) -> (r: bool)
        ensures
            r == spec_can_collide(*self, *other),
    {
        match (self.collision_layer, other.collision_mask, other.collision_layer, self.collision_mask) {
            (layer, Some(mask), _, _) => layer.bits & mask.bits != 0,
            (_, _, layer, Some(mask)) => layer.bits & mask.bits != 0,
            _ => false,
        }
    }
}

/// The pairs `(i, j)`, `i < j`, of bodies that can collide, in order of `i` then `j`.
pub open spec fn pairs_upto(filters: Seq<CollisionFilter>, i: int) -> Seq<(usize, usize)>
    decreases i,
{
    if i <= 0 {
        Seq::empty()
    } else {
        pairs_upto(filters, i - 1) + pairs_from(filters, i - 1, filters.len() as int)
    }
}

/// The pairs `(i, j)`, `i < j < end`, that can collide, in order of `j`.
pub open spec fn pairs_from(filters: Seq<CollisionFilter>, i: int, end: int) -> Seq<(usize, usize)>
    decreases end - i,
{
    if end <= i + 1 {
        Seq::empty()
    } else if spec_can_collide(filters[i], filters[end - 1]) {
        pairs_from(filters, i, end - 1).push((i as usize, (end - 1) as usize))
    } else {
        pairs_from(filters, i, end - 1)
    }
}

proof fn lemma_pairs_from_contains(filters: Seq<CollisionFilter>, i: int, end: int, a: usize, b: usize)
    requires
        0 <= i,
        end <= filters.len() <= usize::MAX,
    ensures
        pairs_from(filters, i, end).contains((a, b)) <==> (a == i && i < b < end
            && spec_can_collide(filters[i], filters[b as int])),
    decreases end - i,
{
    broadcast use vstd::seq_lib::group_seq_properties;

    if end > i + 1 {
        lemma_pairs_from_contains(filters, i, end - 1, a, b);
    }
}

proof fn lemma_pairs_upto_contains(filters: Seq<CollisionFilter>, i: int, a: usize, b: usize)
    requires
        i <= filters.len() <= usize::MAX,
    ensures
        pairs_upto(filters, i).contains((a, b)) <==> (a < i && a < b < filters.len()
            && spec_can_collide(filters[a as int], filters[b as int])),
    decreases i,
{
    broadcast use vstd::seq_lib::group_seq_properties;

    if i > 0 {
        lemma_pairs_upto_contains(filters, i - 1, a, b);
        lemma_pairs_from_contains(filters, i - 1, filters.len() as int, a, b);
    }
}

/// The candidate pairs are exactly the pairs `(i, j)` of distinct bodies, `i < j`, that
/// `can_collide` accepts.
pub proof fn law_candidates_are_colliding_pairs(filters: Seq<CollisionFilter>, i: usize, j: usize)
    requires
        filters.len() <= usize::MAX,
    ensures
        pairs_upto(filters, filters.len() as int).contains((i, j)) <==> (i < j < filters.len()
            && spec_can_collide(filters[i as int], filters[j as int])),
{
    lemma_pairs_upto_contains(filters, filters.len() as int, i, j);
}

/// The pairs of bodies whose layers let them collide: every `(i, j)` with `i < j`,
/// in order of `i` then `j`. The shapes are tested afterwards.
pub fn collision_candidates(filters: &Vec<CollisionFilter>) -> (r: Vec<(usize, usize)>)
    ensures
        r@ == pairs_upto(filters@, filters@.len() as int),
{
    let n = filters.len();
    let mut out: Vec<(usize, usize)> = Vec::new();
    let mut i: usize = 0;
    while i < n
        invariant
            n == filters@.len(),
            i <= n,
            out@ == pairs_upto(filters@, i as int),
        decreases n - i,
    {
        let ghost before = out@;
        let mut j: usize = i + 1;
        while j < n
            invariant
                n == filters@.len(),
                i < n,
                i + 1 <= j <= n,
                out@ == before + pairs_from(filters@, i as int, j as int),
            decreases n - j,
        {
            if filters[i].can_collide(&filters[j]) {
                out.push((i, j));
            }
            j = j + 1;
        }
        i = i + 1;
    }
    out
}

/// What the collision system knows of one body of a colliding pair.
#[derive(Debug, Copy, Clone, PartialEq, Eq, Structural)]
pub struct CollisionParty {
    pub entity: EntityId,
    /// The body has health points.
    pub has_health: bool,
    /// `Some(alive)` when the body is a bullet.
    pub bullet_alive: Option<bool>,
    /// The body is a missile.
    pub is_missile: bool,
}

/// What a collision causes.
#[derive(Debug, Copy, Clone, PartialEq, Eq, Structural)]
pub enum CollisionEvent {
    /// Remove the entity from the world.
    Delete(EntityId),
    /// The bullet hits the target (the damage is the bullet's).
    Hit { target: EntityId, bullet: EntityId },
    /// The missile explodes where it is (radius 100).
    MissileExplosion(EntityId),
    /// The two bodies bounce off each other, if both are physical bodies.
    Bounce(EntityId, EntityId),
}

/// Radius of the explosion of a missile.
pub const MISSILE_EXPLOSION_RADIUS: u32 = 100;

/// Is the body a bullet still alive, the bullets of `killed` being dead?
pub open spec fn live_bullet(p: CollisionParty, killed: Seq<EntityId>) -> bool {
    p.bullet_alive == Some(true) && !killed.contains(p.entity)
}

/// A bullet that touches something: when it is still alive it dies, is removed, and
/// hits the other body if that one has health.
pub open spec fn bullet_events(target: Option<EntityId>, bullet: CollisionParty, killed: Seq<EntityId>) -> (
    Seq<CollisionEvent>,
    Seq<EntityId>,
) {
    if live_bullet(bullet, killed) {
        (
            match target {
                Some(t) => seq![
                    CollisionEvent::Delete(bullet.entity),
                    CollisionEvent::Hit { target: t, bullet: bullet.entity },
                ],
                None => seq![CollisionEvent::Delete(bullet.entity)],
            },
            killed.push(bullet.entity),
        )
    } else {
        (Seq::empty(), killed)
    }
}

/// Events of one colliding pair, the bullets of `killed` being already dead.
///
/// Bullets first: a bullet touching a body with health hits it (the second body's
/// bullet first); a bullet touching a body without health is just removed. Then
/// missiles: a missile touching anything explodes (the second body's missile first).
/// Without missile, the bodies bounce off each other.
pub open spec fn pair_events(a: CollisionParty, b: CollisionParty, killed: Seq<EntityId>) -> (
    Seq<CollisionEvent>,
    Seq<EntityId>,
) {
    if a.entity == b.entity {
        (Seq::empty(), killed)
    } else {
        let a_bullet = a.bullet_alive is Some;
        let b_bullet = b.bullet_alive is Some;
        let (ev1, k1) = if a.has_health && b_bullet {
            bullet_events(Some(a.entity), b, killed)
        } else if b.has_health && a_bullet {
            bullet_events(Some(b.entity), a, killed)
        } else if !a.has_health && b_bullet {
            bullet_events(None, b, killed)
        } else if a_bullet {
            bullet_events(None, a, killed)
        } else {
            (Seq::empty(), killed)
        };
        let ev2 = if b.is_missile {
            seq![CollisionEvent::Delete(b.entity), CollisionEvent::MissileExplosion(b.entity)]
        } else if a.is_missile {
            seq![CollisionEvent::Delete(a.entity), CollisionEvent::MissileExplosion(a.entity)]
        } else {
            seq![CollisionEvent::Bounce(a.entity, b.entity)]
        };
        (ev1 + ev2, k1)
    }
}

/// Events of the first `n` pairs, in order, and the bullets they killed.
pub open spec fn collisions_upto(pairs: Seq<(CollisionParty, CollisionParty)>, n: int) -> (
    Seq<CollisionEvent>,
    Seq<EntityId>,
)
    decreases n,
{
    if n <= 0 {
        (Seq::empty(), Seq::empty())
    } else {
        let (ev, killed) = collisions_upto(pairs, n - 1);
        let (ev2, killed2) = pair_events(pairs[n - 1].0, pairs[n - 1].1, killed);
        (ev + ev2, killed2)
    }
}


/// Is the event a hit by `bullet`?
pub open spec fn is_hit_by(ev: CollisionEvent, bullet: EntityId) -> bool {
    ev matches CollisionEvent::Hit { bullet: b, .. } && b == bullet
}

/// Every hit of `events` is by a bullet of `killed`, and no bullet hits twice.
pub open spec fn hits_once(events: Seq<CollisionEvent>, killed: Seq<EntityId>) -> bool {
    &&& forall|i: int, b: EntityId| 0 <= i < events.len() && #[trigger] is_hit_by(events[i], b) ==> killed.contains(b)
    &&& forall|i: int, j: int, b: EntityId|
        0 <= i < j < events.len() && #[trigger] is_hit_by(events[i], b) ==> !#[trigger] is_hit_by(events[j], b)
}

proof fn lemma_pair_events_hit_once(a: CollisionParty, b: CollisionParty, events: Seq<CollisionEvent>, killed: Seq<EntityId>)
    requires
        hits_once(events, killed),
    ensures
        hits_once(events + pair_events(a, b, killed).0, pair_events(a, b, killed).1),
{
    broadcast use vstd::seq_lib::group_seq_properties;

    let (ev, k) = pair_events(a, b, killed);
    let all = events + ev;
    assert forall|i: int, x: EntityId| 0 <= i < all.len() && #[trigger] is_hit_by(all[i], x) implies k.contains(x) by {
        if i < events.len() {
            assert(all[i] == events[i]);
            assert(killed.contains(x));
            let w = choose|w: int| 0 <= w < killed.len() && killed[w] == x;
            if a.entity != b.entity {
                assert(k == killed || k == killed.push(a.entity) || k == killed.push(b.entity));
                if k != killed {
                    assert(k[w] == x);
                }
            }
        }
    }
    assert forall|i: int, j: int, x: EntityId|
        0 <= i < j < all.len() && #[trigger] is_hit_by(all[i], x) implies !#[trigger] is_hit_by(all[j], x) by {
        if j >= events.len() && i < events.len() {
            assert(all[i] == events[i]);
            assert(killed.contains(x));
            assert(all[j] == ev[j - events.len()]);
        }
        if i >= events.len() {
            assert(all[i] == ev[i - events.len()]);
            assert(all[j] == ev[j - events.len()]);
        }
    }
}

proof fn lemma_collisions_hit_once(pairs: Seq<(CollisionParty, CollisionParty)>, n: int)
    requires
        n <= pairs.len(),
    ensures
        hits_once(collisions_upto(pairs, n).0, collisions_upto(pairs, n).1),
    decreases n,
{
    if n > 0 {
        lemma_collisions_hit_once(pairs, n - 1);
        let (ev, killed) = collisions_upto(pairs, n - 1);
        lemma_pair_events_hit_once(pairs[n - 1].0, pairs[n - 1].1, ev, killed);
    }
}

/// A bullet hits at most one body: among the events of the collisions of a frame, no
/// two hits are by the same bullet.
pub proof fn law_bullet_hits_once(pairs: Seq<(CollisionParty, CollisionParty)>, i: int, j: int, bullet: EntityId)
    requires
        0 <= i < j < collisions_upto(pairs, pairs.len() as int).0.len(),
        is_hit_by(collisions_upto(pairs, pairs.len() as int).0[i], bullet),
    ensures
        !is_hit_by(collisions_upto(pairs, pairs.len() as int).0[j], bullet),
{
    lemma_collisions_hit_once(pairs, pairs.len() as int);
}

/// In a pair of two different bodies, a bullet still alive that touches a body with
/// health hits it, whatever the order of the two bodies in the pair. (When the bullet
/// comes first and both bodies are bullets with health, the second one is handled
/// first and hits the first.)
pub proof fn law_live_bullet_hits_body_with_health(
    bullet: CollisionParty,
    body: CollisionParty,
    killed: Seq<EntityId>,
)
    requires
        bullet.entity != body.entity,
        bullet.bullet_alive == Some(true),
        !killed.contains(bullet.entity),
        body.has_health,
    ensures
        pair_events(body, bullet, killed).0.contains(CollisionEvent::Hit { target: body.entity, bullet: bullet.entity }),
        !(bullet.has_health && body.bullet_alive is Some) ==> pair_events(bullet, body, killed).0.contains(
            CollisionEvent::Hit { target: body.entity, bullet: bullet.entity },
        ),
        pair_events(body, bullet, killed).1.contains(bullet.entity),
{
    let hit = CollisionEvent::Hit { target: body.entity, bullet: bullet.entity };
    let (ev, k) = pair_events(body, bullet, killed);
    assert(ev[1] == hit);
    assert(k[k.len() - 1] == bullet.entity);
    if !(bullet.has_health && body.bullet_alive is Some) {
        let (ev2, _) = pair_events(bullet, body, killed);
        assert(ev2[1] == hit);
    }
}

/// A bullet that hits is removed at once, and a bullet already dead (or killed by an
/// earlier collision of the frame) hits nothing.
pub proof fn law_hitting_bullet_is_removed(a: CollisionParty, b: CollisionParty, killed: Seq<EntityId>, target: EntityId, bullet: EntityId)
    requires
        pair_events(a, b, killed).0.contains(CollisionEvent::Hit { target, bullet }),
    ensures
        pair_events(a, b, killed).0.contains(CollisionEvent::Delete(bullet)),
        !killed.contains(bullet),
        (bullet == a.entity && a.bullet_alive == Some(true)) || (bullet == b.entity && b.bullet_alive == Some(true)),
        target != bullet,
        pair_events(a, b, killed).1 == killed.push(bullet),
{
    let (ev, k) = pair_events(a, b, killed);
    let w = choose|w: int| 0 <= w < ev.len() && ev[w] == CollisionEvent::Hit { target, bullet };
    assert(ev[0] == CollisionEvent::Delete(bullet));
}

/// A missile touching anything explodes and is removed (the second body's missile when
/// both are missiles); two bodies without missile bounce off each other.
pub proof fn law_missile_explodes_or_bodies_bounce(a: CollisionParty, b: CollisionParty, killed: Seq<EntityId>)
    requires
        a.entity != b.entity,
    ensures
        b.is_missile ==> pair_events(a, b, killed).0.contains(CollisionEvent::MissileExplosion(b.entity))
            && pair_events(a, b, killed).0.contains(CollisionEvent::Delete(b.entity)),
        !b.is_missile && a.is_missile ==> pair_events(a, b, killed).0.contains(CollisionEvent::MissileExplosion(a.entity))
            && pair_events(a, b, killed).0.contains(CollisionEvent::Delete(a.entity)),
        !a.is_missile && !b.is_missile ==> pair_events(a, b, killed).0.contains(CollisionEvent::Bounce(a.entity, b.entity)),
        (a.is_missile || b.is_missile) ==> forall|i: int|
            0 <= i < pair_events(a, b, killed).0.len() ==> !(#[trigger] pair_events(a, b, killed).0[i] is Bounce),
{
    broadcast use vstd::seq_lib::group_seq_properties;

    let (ev, _) = pair_events(a, b, killed);
    let n = ev.len() as int;
    if b.is_missile || a.is_missile {
        assert(ev[n - 1] is MissileExplosion);
        assert(ev[n - 2] is Delete);
    } else {
        assert(ev[n - 1] == CollisionEvent::Bounce(a.entity, b.entity));
    }
}

/// The bullets killed by the first `n` pairs are bodies of those pairs.
proof fn lemma_killed_in_pairs(pairs: Seq<(CollisionParty, CollisionParty)>, n: int, x: EntityId)
    requires
        0 <= n <= pairs.len(),
        forall|j: int| 0 <= j < n ==> (#[trigger] pairs[j]).0.entity != x && pairs[j].1.entity != x,
    ensures
        !collisions_upto(pairs, n).1.contains(x),
    decreases n,
{
    broadcast use vstd::seq_lib::group_seq_properties;

    if n > 0 {
        lemma_killed_in_pairs(pairs, n - 1, x);
        let (_, killed) = collisions_upto(pairs, n - 1);
        let (a, b) = pairs[n - 1];
        let (_, k2) = pair_events(a, b, killed);
        assert(k2 == killed || k2 == killed.push(a.entity) || k2 == killed.push(b.entity));
    }
}

/// The events of the first `n` pairs come first among the events of the first `m`.
proof fn lemma_events_prefix(pairs: Seq<(CollisionParty, CollisionParty)>, n: int, m: int)
    requires
        0 <= n <= m <= pairs.len(),
    ensures
        collisions_upto(pairs, n).0.len() <= collisions_upto(pairs, m).0.len(),
        collisions_upto(pairs, m).0.take(collisions_upto(pairs, n).0.len() as int) == collisions_upto(pairs, n).0,
    decreases m - n,
{
    if n < m {
        lemma_events_prefix(pairs, n, m - 1);
        let prev = collisions_upto(pairs, m - 1).0;
        let cur = collisions_upto(pairs, m).0;
        let len = collisions_upto(pairs, n).0.len() as int;
        assert(cur.take(prev.len() as int) =~= prev);
        assert(cur.take(len) =~= prev.take(len));
    } else {
        assert(collisions_upto(pairs, n).0.take(collisions_upto(pairs, n).0.len() as int) =~= collisions_upto(
            pairs,
            n,
        ).0);
    }
}

/// The first collision of a live bullet with a different body that has health makes
/// it hit that body, in either order of the pair: among the events of the frame is a
/// hit of that body by that bullet. (When the bullet comes first and both bodies are
/// bullets with health, the second one hits the first instead.)
pub proof fn law_first_collision_of_bullet_hits(
    pairs: Seq<(CollisionParty, CollisionParty)>,
    k: int,
    bullet: CollisionParty,
    body: CollisionParty,
)
    requires
        0 <= k < pairs.len(),
        pairs[k] == (bullet, body) || pairs[k] == (body, bullet),
        bullet.entity != body.entity,
        bullet.bullet_alive == Some(true),
        body.has_health,
        pairs[k] == (bullet, body) ==> !(bullet.has_health && body.bullet_alive is Some),
        forall|j: int| 0 <= j < k ==> (#[trigger] pairs[j]).0.entity != bullet.entity && pairs[j].1.entity != bullet.entity,
    ensures
        collisions_upto(pairs, pairs.len() as int).0.contains(CollisionEvent::Hit { target: body.entity, bullet: bullet.entity }),
{
    broadcast use vstd::seq_lib::group_seq_properties;

    let hit = CollisionEvent::Hit { target: body.entity, bullet: bullet.entity };
    lemma_killed_in_pairs(pairs, k, bullet.entity);
    let (ev, killed) = collisions_upto(pairs, k);
    law_live_bullet_hits_body_with_health(bullet, body, killed);
    let (ev2, _) = pair_events(pairs[k].0, pairs[k].1, killed);
    assert(ev2.contains(hit));
    let here = collisions_upto(pairs, k + 1).0;
    assert(here == ev + ev2);
    let w = choose|w: int| 0 <= w < ev2.len() && ev2[w] == hit;
    assert(here[ev.len() + w] == hit);
    lemma_events_prefix(pairs, k + 1, pairs.len() as int);
    let all = collisions_upto(pairs, pairs.len() as int).0;
    assert(all.take(here.len() as int)[ev.len() + w] == hit);
    assert(all[ev.len() + w] == hit);
}

fn contains_entity(v: &Vec<EntityId>, e: EntityId) -> (r: bool)
    ensures
        r == v@.contains(e),
{
    let mut i: usize = 0;
    while i < v.len()
        invariant
            i <= v@.len(),
            forall|k: int| 0 <= k < i ==> v@[k] != e,
        decreases v@.len() - i,
    {
        if v[i] == e {
            return true;
        }
        i = i + 1;
    }
    false
}

fn process_bullet(target: Option<EntityId>, bullet: CollisionParty, killed: &mut Vec<EntityId>, events: &mut Vec<CollisionEvent>)
    ensures
        ({
            let (ev, k) = bullet_events(target, bullet, old(killed)@);
            &&& final(events)@ == old(events)@ + ev
            &&& final(killed)@ == k
        }),
{
    // if bullet is not alive, let's not process the rest.
    if bullet.bullet_alive == Some(true) && !contains_entity(killed, bullet.entity) {
        killed.push(bullet.entity);
        events.push(CollisionEvent::Delete(bullet.entity));
        if let Some(t) = target {
            events.push(CollisionEvent::Hit { target: t, bullet: bullet.entity });
        }
    }
}

/// What the colliding pairs cause, pair after pair. A bullet dies on its first
/// collision: later collisions of the same bullet cause nothing.
#[verifier::spinoff_prover]
#[verifier::rlimit(40)]
pub fn process_collisions(pairs: &Vec<(CollisionParty, CollisionParty)>) -> (r: Vec<CollisionEvent>)
    ensures
        r@ == collisions_upto(pairs@, pairs@.len() as int).0,
{
    let mut events: Vec<CollisionEvent> = Vec::new();
    let mut killed: Vec<EntityId> = Vec::new();
    let mut i: usize = 0;
    while i < pairs.len()
        invariant
            i <= pairs@.len(),
            (events@, killed@) == collisions_upto(pairs@, i as int),
        decreases pairs@.len() - i,
    {
        let (a, b) = pairs[i];
        if a.entity != b.entity {
            let a_bullet = a.bullet_alive.is_some();
            let b_bullet = b.bullet_alive.is_some();
            // bullet to health.
            if a.has_health && b_bullet {
                process_bullet(Some(a.entity), b, &mut killed, &mut events);
            } else if b.has_health && a_bullet {
                process_bullet(Some(b.entity), a, &mut killed, &mut events);
            } else if !a.has_health && b_bullet {
                process_bullet(None, b, &mut killed, &mut events);
            } else if a_bullet {
                process_bullet(None, a, &mut killed, &mut events);
            }
            // missile to anything.
            if b.is_missile {
                events.push(CollisionEvent::Delete(b.entity));
                events.push(CollisionEvent::MissileExplosion(b.entity));
            } else if a.is_missile {
                events.push(CollisionEvent::Delete(a.entity));
                events.push(CollisionEvent::MissileExplosion(a.entity));
            } else {
                // apply forces for dynamic bodies.
                events.push(CollisionEvent::Bounce(a.entity, b.entity));
            }
        }
        i = i + 1;
    }
    events
}

} // verus!
