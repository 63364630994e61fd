use vstd::prelude::*;

verus! {

/// What the current scene asks of the scene stack after an update.
pub enum SceneResult<S> {
    ReplaceScene(S),
    Push(S),
    Pop,
    /// Remove all existing scenes and create the new one.
    ReplaceAll(S),
    Noop,
}

/// A state of the game (menu, stage, game over...). Each callback may change the
/// scene; nothing more is assumed of them.
pub trait Scene: Sized {
    /// The entities of the game.
    type World;
    /// Assets, inputs and other shared resources.
    type Resources;

    /// Will be called when the state is added to the state stack.
    fn on_create(&mut self, world: &mut Self::World, resources: &mut Self::Resources) {
    }

    /// Will be called when the state is removed from the state stack.
    fn on_destroy(&mut self, world: &mut Self::World) {
    }

    /// Will be called when the state becomes active again, on `pop`.
    fn on_enter(&self) {
    }

    /// Will be called when the state becomes inactive, on `push`.
    fn on_exit(&self) {
    }

    /// Update gameplay systems; `dt` in microseconds.
    fn update(&mut self, dt: u64, world: &mut Self::World, resources: &Self::Resources) -> SceneResult<Self>;
}

/// The stack keeps track of the states of the game. The top of the stack is used for
/// the update loop; the states below are kept, so going back to a previous state is
/// popping the stack. Beside each scene is kept, as ghost data, the state it was made
/// from: the state handed to the stack, before its callbacks ran on it.
pub struct SceneStack<S> {
    states: Vec<(S, Ghost<S>)>,
}

/// The scenes of the entries.
pub open spec fn scenes_of<S>(entries: Seq<(S, Ghost<S>)>) -> Seq<S> {
    entries.map_values(|e: (S, Ghost<S>)| e.0)
}

/// The states the scenes of the entries were made from.
pub open spec fn origins_of<S>(entries: Seq<(S, Ghost<S>)>) -> Seq<S> {
    entries.map_values(|e: (S, Ghost<S>)| e.1@)
}

impl<S: Scene> Default for SceneStack<S> {
    /// An empty stack.
    fn default() -> (r: Self)
        ensures
            r.spec_states().len() == 0,
            r.spec_origins().len() == 0,
    {
        Self { states: Vec::new() }
    }
}

impl<S: Scene> SceneStack<S> {
    pub closed spec fn spec_states(&self) -> Seq<S> {
        scenes_of(self.states@)
    }

    /// Number of scenes on the stack.
    pub closed spec fn spec_len(&self) -> nat {
        self.states@.len()
    }

    /// For each scene of the stack, from the bottom, the state it was made from: the
    /// state handed to `push`, `replace` or `apply_result`.
    pub closed spec fn spec_origins(&self) -> Seq<S> {
        origins_of(self.states@)
    }

    /// Number of scenes on the stack.
    pub fn len(&self) -> (r: usize)
        ensures
            r == self.spec_states().len(),
            r == self.spec_origins().len(),
    {
        self.states.len()
    }

    /// Add a state to the game; it becomes the current one. The previous current
    /// state is told it is left (`on_exit`), the new one that it is created (`on_create`).
    pub fn push(&mut self, state: S, world: &mut S::World, resources: &mut S::Resources)
        ensures
            final(self).spec_states().len() == old(self).spec_states().len() + 1,
            final(self).spec_states().take(old(self).spec_states().len() as int) == old(self).spec_states(),
            final(self).spec_origins() == old(self).spec_origins().push(state),
    {
        let n = self.states.len();
        if n > 0 {
            self.states[n - 1].0.on_exit();
        }
        let ghost origin = state;
        self.states.push((state, Ghost(origin)));
        let ghost pushed = self.states@;
        self.states[n].0.on_create(world, resources);
        proof {
            assert(self.states@[n as int].1 == pushed[n as int].1);
            assert(scenes_of(self.states@).take(n as int) =~= scenes_of(old(self).states@));
            assert(origins_of(self.states@) =~= origins_of(old(self).states@).push(state));
        }
    }

    /// Remove the current state and execute its exit callback (`on_destroy`); the state
    /// below, if any, becomes current again (`on_enter`). `None` when the stack is empty.
    pub fn pop(&mut self, world: &mut S::World) -> (r: Option<S>)
        ensures
            old(self).spec_states().len() == 0 ==> r is None && final(self).spec_states() == old(self).spec_states(),
            old(self).spec_states().len() > 0 ==> r is Some && final(self).spec_states()
                == old(self).spec_states().drop_last(),
            old(self).spec_states().len() == 0 ==> final(self).spec_origins() == old(self).spec_origins(),
            old(self).spec_states().len() > 0 ==> final(self).spec_origins() == old(self).spec_origins().drop_last(),
            old(self).spec_len() == old(self).spec_states().len(),
            final(self).spec_len() == final(self).spec_states().len(),
    {
        proof {
            assert(scenes_of(self.states@).len() == self.states@.len());
        }
        match self.states.pop() {
            Some(entry) => {
                proof {
                    assert(scenes_of(self.states@) =~= scenes_of(old(self).states@).drop_last());
                    assert(origins_of(self.states@) =~= origins_of(old(self).states@).drop_last());
                }
                let (s, _) = entry;
                let mut s = s;
                s.on_destroy(world);
                let n = self.states.len();
                if n > 0 {
                    self.states[n - 1].0.on_enter();
                }
                Some(s)
            },
            None => None,
        }
    }

    /// Replace the current state (destroyed) by a new one (created); on an empty stack
    /// the new state is just added.
    pub fn replace(&mut self, state: S, world: &mut S::World, resources: &mut S::Resources)
        ensures
            old(self).spec_states().len() > 0 ==> final(self).spec_states().len() == old(self).spec_states().len()
                && final(self).spec_states().take(old(self).spec_states().len() - 1)
                == old(self).spec_states().drop_last(),
            old(self).spec_states().len() == 0 ==> final(self).spec_states().len() == 1,
            old(self).spec_states().len() > 0 ==> final(self).spec_origins() == old(self).spec_origins().drop_last().push(
                state,
            ),
            old(self).spec_states().len() == 0 ==> final(self).spec_origins() == seq![state],
    {
        proof {
            assert(scenes_of(self.states@).len() == self.states@.len());
        }
        match self.states.pop() {
            Some(entry) => {
                let (s, _) = entry;
                let mut s = s;
                s.on_destroy(world);
            },
            None => {},
        }
        let ghost mid = self.states@;
        let n = self.states.len();
        let ghost origin = state;
        self.states.push((state, Ghost(origin)));
        let ghost pushed = self.states@;
        self.states[n].0.on_create(world, resources);
        proof {
            assert(self.states@[n as int].1 == pushed[n as int].1);
            assert(scenes_of(self.states@).take(n as int) =~= scenes_of(old(self).states@).take(n as int));
            assert(origins_of(self.states@) =~= origins_of(mid).push(state));
            if old(self).states@.len() > 0 {
                assert(origins_of(mid) =~= origins_of(old(self).states@).drop_last());
                assert(scenes_of(old(self).states@).take(n as int) =~= scenes_of(old(self).states@).drop_last());
            } else {
                assert(origins_of(mid) =~= Seq::<S>::empty());
            }
        }
    }

    /// Do what the current scene asked: replace it, push a new scene on it, pop it,
    /// replace the whole stack by a new scene, or nothing.
    pub fn apply_result(&mut self, res: SceneResult<S>, world: &mut S::World, resources: &mut S::Resources)
        ensures
            match res {
                SceneResult::ReplaceScene(_) => if old(self).spec_states().len() > 0 {
                    final(self).spec_states().len() == old(self).spec_states().len()
                        && final(self).spec_states().take(old(self).spec_states().len() - 1)
                        == old(self).spec_states().drop_last()
                } else {
                    final(self).spec_states().len() == 1
                },
                SceneResult::Push(_) => final(self).spec_states().len() == old(self).spec_states().len() + 1
                    && final(self).spec_states().take(old(self).spec_states().len() as int)
                    == old(self).spec_states(),
                SceneResult::Pop => if old(self).spec_states().len() > 0 {
                    final(self).spec_states() == old(self).spec_states().drop_last()
                } else {
                    final(self).spec_states() == old(self).spec_states()
                },
                SceneResult::ReplaceAll(_) => final(self).spec_states().len() == 1,
                SceneResult::Noop => final(self).spec_states() == old(self).spec_states(),
            },
            match res {
                SceneResult::ReplaceScene(s) => if old(self).spec_states().len() > 0 {
                    final(self).spec_origins() == old(self).spec_origins().drop_last().push(s)
                } else {
                    final(self).spec_origins() == seq![s]
                },
                SceneResult::Push(s) => final(self).spec_origins() == old(self).spec_origins().push(s),
                SceneResult::Pop => if old(self).spec_states().len() > 0 {
                    final(self).spec_origins() == old(self).spec_origins().drop_last()
                } else {
                    final(self).spec_origins() == old(self).spec_origins()
                },
                SceneResult::ReplaceAll(s) => final(self).spec_origins() == seq![s],
                SceneResult::Noop => final(self).spec_origins() == old(self).spec_origins(),
            },
    {
        match res {
            SceneResult::ReplaceScene(state) => self.replace(state, world, resources),
            SceneResult::Push(state) => self.push(state, world, resources),
            SceneResult::Pop => {
                self.pop(world);
            },
            SceneResult::ReplaceAll(state) => {
                while self.states.len() > 0
                    invariant
                        true,
                    decreases self.states@.len(),
                {
                    self.pop(world);
                }
                self.push(state, world, resources);
            },
            SceneResult::Noop => {},
        }
    }

    /// Get the current state.
    pub fn current_mut(&mut self) -> (r: Option<&mut S>)
        ensures
            old(self).spec_states().len() == 0 ==> r is None,
            old(self).spec_states().len() > 0 ==> (r matches Some(s) && *s == old(self).spec_states().last()
                && final(self).spec_states() == old(self).spec_states().drop_last().push(*final(s))),
            old(self).spec_states().len() == 0 ==> final(self).spec_states() == old(self).spec_states(),
            final(self).spec_origins() == old(self).spec_origins(),
    {
        let n = self.states.len();
        if n == 0 {
            None
        } else {
            Some(&mut self.states[n - 1].0)
        }
    }
}

/// Pushing a scene then popping it gives back the stack as it was: `pushed` is any
/// stack that `push` may leave after `before`, and `pop` leaves its `drop_last`.
pub proof fn law_push_then_pop<S>(before: Seq<S>, pushed: Seq<S>)
    requires
        pushed.len() == before.len() + 1,
        pushed.take(before.len() as int) == before,
    ensures
        pushed.len() > 0,
        pushed.drop_last() == before,
{
    assert(pushed.drop_last() =~= before);
}

} // verus!
