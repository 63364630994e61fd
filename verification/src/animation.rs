use crate::entity::EntityId;
use vstd::prelude::*;

verus! {

/// One animation (in one spritesheet).
#[derive(Debug)]
pub struct Animation {
    /// Keyframes: sprite name, and the number of frames the keyframe lasts.
    pub keyframes: Vec<(String, usize)>,
    /// Keyframe being shown.
    pub current_index: usize,
    /// Frames elapsed in the current keyframe.
    pub elapsed_frame: usize,
}

impl Default for Animation {
    /// An animation without keyframes.
    fn default() -> (r: Self)
        ensures
            r.keyframes@.len() == 0,
            r.current_index == 0,
            r.elapsed_frame == 0,
    {
        Animation { keyframes: Vec::new(), current_index: 0, elapsed_frame: 0 }
    }
}

impl Animation {
    pub fn new(keyframes: Vec<(String, usize)>) -> (r: Self)
        ensures
            r.keyframes@ == keyframes@,
            r.current_index == 0,
            r.elapsed_frame == 0,
    {
        Self { keyframes, current_index: 0, elapsed_frame: 0 }
    }

    /// Is the current keyframe the last one?
    pub fn last_frame(&self) -> (r: bool)
        ensures
            r == (self.keyframes@.len() == self.current_index + 1),
    {
        let n = self.keyframes.len();
        if self.current_index < usize::MAX {
            n == self.current_index + 1
        } else {
            false
        }
    }

    /// The current keyframe exists and its frame count can still grow.
    pub open spec fn can_advance(&self) -> bool {
        &&& self.current_index < self.keyframes@.len()
        &&& self.elapsed_frame < usize::MAX
    }

    /// The keyframe shown lasts past its length with one more frame.
    pub open spec fn keyframe_over(&self) -> bool {
        self.elapsed_frame + 1 > self.keyframes@[self.current_index as int].1
    }

    /// `next` is `self` after one more frame, which showed `sprite`; `finished` tells
    /// whether the animation just went past its last keyframe.
    pub open spec fn advanced_to(&self, next: Animation, sprite: Seq<char>, finished: bool) -> bool {
        &&& sprite == self.keyframes@[self.current_index as int].0@
        &&& next.keyframes@ == self.keyframes@
        &&& if self.keyframe_over() {
            &&& next.elapsed_frame == 0
            &&& next.current_index == (self.current_index + 1) % (self.keyframes@.len() as int)
            &&& finished == (self.keyframes@.len() == self.current_index + 1)
        } else {
            &&& next.elapsed_frame == self.elapsed_frame + 1
            &&& next.current_index == self.current_index
            &&& !finished
        }
    }

    /// Show one more frame. Returns the sprite shown and whether the animation just went
    /// past its last keyframe. The keyframe lasts while its frame count does not exceed
    /// its length; then the next keyframe comes, the first one after the last.
    pub fn advance(&mut self) -> (r: (String, bool))
        requires
            old(self).can_advance(),
        ensures
            old(self).advanced_to(*final(self), r.0@, r.1),
            final(self).current_index < final(self).keyframes@.len(),
    {
        let sprite = self.keyframes[self.current_index].0.clone();
        self.elapsed_frame = self.elapsed_frame + 1;
        let mut wrapped = false;
        if self.elapsed_frame > self.keyframes[self.current_index].1 {
            self.elapsed_frame = 0;
            wrapped = self.last_frame();
            self.current_index = ((self.current_index as u128 + 1) % (self.keyframes.len() as u128)) as usize;
        }
        (sprite, wrapped)
    }
}

/// All animations of an entity; `current_animation` names the one playing.
#[derive(Debug)]
pub struct AnimationController {
    /// Animation will cycle through the sprites on its spritesheet
    pub animations: Vec<(String, Animation)>,
    /// if set to something, will play the corresponding animation
    pub current_animation: Option<String>,
    /// The entity is removed once its animation played to the end.
    pub delete_on_finished: bool,
}

impl Default for AnimationController {
    /// No animation, nothing playing.
    fn default() -> (r: Self)
        ensures
            r.animations@.len() == 0,
            r.current_animation is None,
            !r.delete_on_finished,
    {
        AnimationController { animations: Vec::new(), current_animation: None, delete_on_finished: false }
    }
}

/// What an entity shows this frame.
#[derive(Debug)]
pub struct AnimationFrame {
    /// Sprite to show, when an animation plays.
    pub sprite: Option<String>,
    /// The animation played to its end and the entity must be removed.
    pub delete: bool,
    /// The current animation has no such name among the animations.
    pub missing: bool,
}

/// Position of the first animation named `name`.
pub open spec fn animation_index(animations: Seq<(String, Animation)>, name: Seq<char>) -> Option<int> {
    animations.map_values(|a: (String, Animation)| a.0@).index_of_first(name)
}

impl AnimationController {
    /// The animation that plays can advance.
    pub open spec fn can_animate(&self) -> bool {
        self.current_animation matches Some(name) ==> (animation_index(self.animations@, name@) matches Some(
            i,
        ) ==> self.animations@[i].1.can_advance())
    }

    /// `next` is `self` after one frame that gave `r`.
    pub open spec fn animated_to(&self, next: Self, r: AnimationFrame) -> bool {
        &&& next.current_animation == self.current_animation
        &&& next.delete_on_finished == self.delete_on_finished
        &&& next.animations@.len() == self.animations@.len()
        &&& match self.current_animation {
            None => r.sprite is None && !r.delete && !r.missing && next.animations@ == self.animations@,
            Some(name) => match animation_index(self.animations@, name@) {
                None => r.sprite is None && !r.delete && r.missing && next.animations@ == self.animations@,
                Some(i) => {
                    let a = self.animations@[i].1;
                    &&& !r.missing
                    &&& r.sprite is Some
                    &&& next.animations@[i].0 == self.animations@[i].0
                    &&& a.advanced_to(next.animations@[i].1, r.sprite->0@, a.keyframe_over() && a.keyframes@.len() == a.current_index + 1)
                    &&& r.delete == (self.delete_on_finished && a.keyframe_over()
                        && a.keyframes@.len() == a.current_index + 1)
                    &&& forall|j: int| 0 <= j < self.animations@.len() && j != i
                        ==> next.animations@[j] == self.animations@[j]
                },
            },
        }
    }

    /// Play one frame of the current animation: its sprite is shown, and the entity
    /// is removed after the last keyframe when `delete_on_finished` is set.
    pub fn animate(&mut self) -> (r: AnimationFrame)
        requires
            old(self).can_animate(),
        ensures
            old(self).animated_to(*final(self), r),
    {
        let name = match &self.current_animation {
            Some(n) => n,
            None => {
                return AnimationFrame { sprite: None, delete: false, missing: false };
            },
        };
        let ghost names = self.animations@.map_values(|a: (String, Animation)| a.0@);
        let mut i: usize = 0;
        while i < self.animations.len()
            invariant
                i <= self.animations@.len(),
                names == self.animations@.map_values(|a: (String, Animation)| a.0@),
                *self == *old(self),
                old(self).can_animate(),
                self.current_animation == Some(*name),
                forall|k: int| 0 <= k < i ==> names[k] != name@,
            decreases self.animations@.len() - i,
        {
            if self.animations[i].0 == *name {
                proof {
                    assert(names[i as int] == name@);
                    names.index_of_first_ensures(name@);
                }
                let (sprite, wrapped) = self.animations[i].1.advance();
                let delete = wrapped && self.delete_on_finished;
                return AnimationFrame { sprite: Some(sprite), delete, missing: false };
            }
            i = i + 1;
        }
        proof {
            names.index_of_first_ensures(name@);
        }
        AnimationFrame { sprite: None, delete: false, missing: true }
    }
}

/// Plays the animations of all entities, one frame at a time.
pub struct AnimationSystem;

impl AnimationSystem {
    /// Play one frame of every entity's animation. The frame of each entity stands at
    /// its position in the result; those marked `delete` are to be removed.
    pub fn animate(&mut self, entities: &mut Vec<(EntityId, AnimationController)>) -> (frames: Vec<
        AnimationFrame,
    >)
        requires
            forall|i: int| 0 <= i < old(entities)@.len() ==> (#[trigger] old(entities)@[i]).1.can_animate(),
        ensures
            final(entities)@.len() == old(entities)@.len(),
            frames@.len() == old(entities)@.len(),
            forall|i: int|
                0 <= i < old(entities)@.len() ==> {
                    &&& (#[trigger] final(entities)@[i]).0 == old(entities)@[i].0
                    &&& old(entities)@[i].1.animated_to(final(entities)@[i].1, frames@[i])
                },
    {
        let mut frames: Vec<AnimationFrame> = Vec::new();
        let mut i: usize = 0;
        while i < entities.len()
            invariant
                i <= entities@.len(),
                entities@.len() == old(entities)@.len(),
                frames@.len() == i,
                forall|k: int| i <= k < entities@.len() ==> #[trigger] entities@[k] == old(entities)@[k],
                forall|k: int| 0 <= k < old(entities)@.len() ==> (#[trigger] old(entities)@[k]).1.can_animate(),
                forall|k: int|
                    0 <= k < i ==> {
                        &&& (#[trigger] entities@[k]).0 == old(entities)@[k].0
                        &&& old(entities)@[k].1.animated_to(entities@[k].1, frames@[k])
                    },
            decreases old(entities)@.len() - i,
        {
            let frame = entities[i].1.animate();
            frames.push(frame);
            i = i + 1;
        }
        frames
    }
}

} // verus!
