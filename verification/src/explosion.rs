use crate::animation::{Animation, AnimationController};
use crate::entity::EntityId;
use vstd::prelude::*;

verus! {

/// Marks an entity that explodes when it dies.
#[derive(Debug, Clone, Copy)]
pub struct Explosive;

/// Sound played by every explosion.
pub const EXPLOSION_SOUND: &'static str = "sounds/explosion.wav";

/// Name of the explosion animation.
pub const EXPLOSION_ANIMATION: &'static str = "boum";

/// Keeps every entity but `e`.
pub open spec fn not_entity(e: EntityId) -> spec_fn(EntityId) -> bool {
    |x: EntityId| x != e
}

/// The entities hit by the blast of `exploding`: all that the blast touched, in the
/// same order, except `exploding` itself.
pub fn explosion_victims(exploding: EntityId, touched: &Vec<EntityId>) -> (r: Vec<EntityId>)
    ensures
        r@ == touched@.filter(not_entity(exploding)),
{
    let ghost keep = not_entity(exploding);
    let mut kept: Vec<EntityId> = Vec::new();
    let mut i: usize = 0;
    while i < touched.len()
        invariant
            i <= touched@.len(),
            keep == not_entity(exploding),
            kept@ == touched@.take(i as int).filter(keep),
        decreases touched@.len() - i,
    {
        let e = touched[i];
        if e.0 != exploding.0 {
            kept.push(e);
        }
        proof {
            let t = touched@.take(i as int + 1);
            assert(t.drop_last() == touched@.take(i as int));
            assert(t.last() == e);
            reveal(Seq::filter);
            assert(t.filter(keep) == if keep(t.last()) {
                t.drop_last().filter(keep).push(t.last())
            } else {
                t.drop_last().filter(keep)
            });
        }
        i = i + 1;
    }
    proof {
        assert(touched@.take(i as int) == touched@);
    }
    kept
}

/// The entity that explodes is never hit by its own blast.
pub proof fn law_exploding_entity_spared(exploding: EntityId, touched: Seq<EntityId>)
    ensures
        !touched.filter(not_entity(exploding)).contains(exploding),
{
    if touched.filter(not_entity(exploding)).contains(exploding) {
        touched.lemma_filter_contains_rev(not_entity(exploding), exploding);
    }
}

/// Keyframes of the explosion animation: sprite and number of frames.
pub open spec fn explosion_keyframes() -> Seq<(Seq<char>, usize)> {
    seq![
        ("explosion4/k2_0001.png"@, 1usize),
        ("explosion4/k2_0002.png"@, 2usize),
        ("explosion4/k2_0003.png"@, 3usize),
        ("explosion4/k2_0004.png"@, 4usize),
        ("explosion4/k2_0005.png"@, 5usize),
        ("explosion4/k2_0006.png"@, 6usize),
        ("explosion4/k2_0007.png"@, 7usize),
        ("explosion4/k2_0008.png"@, 8usize),
        ("explosion4/k2_0009.png"@, 9usize),
        ("explosion4/k2_0010.png"@, 10usize),
        ("explosion4/k2_0012.png"@, 10usize),
        ("explosion4/k2_0012.png"@, 10usize),
        ("explosion4/k2_0013.png"@, 10usize),
        ("explosion4/k2_0014.png"@, 10usize),
        ("explosion4/k2_0015.png"@, 10usize),
    ]
}

/// A keyframe showing `sprite` for `frames` frames.
pub(crate) fn keyframe(sprite: &str, frames: usize) -> (k: (String, usize))
    ensures
        k.0@ == sprite@,
        k.1 == frames,
{
    (String::from_str(sprite), frames)
}

/// The animation shown where something explodes: it plays once, then the entity that
/// shows it is removed.
pub fn explosion_animation() -> (c: AnimationController)
    ensures
        c.animations@.len() == 1,
        c.animations@[0].0@ == EXPLOSION_ANIMATION@,
        c.animations@[0].1.keyframes@.map_values(|k: (String, usize)| (k.0@, k.1))
            == explosion_keyframes(),
        c.animations@[0].1.current_index == 0,
        c.animations@[0].1.elapsed_frame == 0,
        c.current_animation matches Some(name) && name@ == EXPLOSION_ANIMATION@,
        c.delete_on_finished,
{
    let keyframes = vec![
        keyframe("explosion4/k2_0001.png", 1),
        keyframe("explosion4/k2_0002.png", 2),
        keyframe("explosion4/k2_0003.png", 3),
        keyframe("explosion4/k2_0004.png", 4),
        keyframe("explosion4/k2_0005.png", 5),
        keyframe("explosion4/k2_0006.png", 6),
        keyframe("explosion4/k2_0007.png", 7),
        keyframe("explosion4/k2_0008.png", 8),
        keyframe("explosion4/k2_0009.png", 9),
        keyframe("explosion4/k2_0010.png", 10),
        keyframe("explosion4/k2_0012.png", 10),
        keyframe("explosion4/k2_0012.png", 10),
        keyframe("explosion4/k2_0013.png", 10),
        keyframe("explosion4/k2_0014.png", 10),
        keyframe("explosion4/k2_0015.png", 10),
    ];
    let animation = Animation::new(keyframes);
    assert(animation.keyframes@.map_values(|k: (String, usize)| (k.0@, k.1))
        =~= explosion_keyframes());
    let animations = vec![(String::from_str(EXPLOSION_ANIMATION), animation)];
    AnimationController {
        animations,
        current_animation: Some(String::from_str(EXPLOSION_ANIMATION)),
        delete_on_finished: true,
    }
}

} // verus!
