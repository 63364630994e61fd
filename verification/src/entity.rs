use vstd::prelude::*;

verus! {

/// Identifier of an entity of the game world (the bits of the ECS entity handle).
#[derive(Debug, Copy, Clone, PartialEq, Eq, Structural, Hash)]
pub struct EntityId(pub u64);

/// A position of the game world, in whole world units.
#[derive(Debug, Copy, Clone, PartialEq, Eq, Structural, Hash)]
pub struct WorldPos {
    pub x: i32,
    pub y: i32,
}

} // verus!
