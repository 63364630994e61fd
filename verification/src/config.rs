use vstd::prelude::*;

verus! {

/// Engine options read from the configuration file.
#[derive(Debug)]
pub struct GameEngineConfig {
    /// Draw the debug shapes over the game.
    pub show_gizmos: bool,
}

impl Default for GameEngineConfig {
    fn default() -> (c: Self)
        ensures
            !c.show_gizmos,
    {
        GameEngineConfig { show_gizmos: false }
    }
}

/// A transform read from a file without its `dirty` flag is dirty: its matrix is
/// computed again on the next frame.
pub fn default_dirty() -> (dirty: bool)
    ensures
        dirty,
{
    true
}

/// Shows the engine trail of a ship while it thrusts.
#[derive(Debug, Clone, Copy)]
pub struct Trail {
    pub should_display: bool,
}

} // verus!
