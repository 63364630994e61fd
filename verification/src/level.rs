use crate::enemy::EnemyType;
use crate::entity::WorldPos;
use crate::timer::saturating_elapsed;
use vstd::prelude::*;

verus! {

/// An enemy to spawn: its hull points, where, and its behaviour.
#[derive(Debug, Copy, Clone)]
pub struct EnemySpawn {
    pub health: u32,
    pub pos: WorldPos,
    pub enemy_type: EnemyType,
}

/// A step of a scripted level. Times are in microseconds.
#[derive(Debug, Copy, Clone)]
pub enum LevelInstruction {
    /// Spawn an enemy
    SpawnEnemy { health: u32, pos: WorldPos, enemy_type: EnemyType },
    /// Spawn multiple enemies with same stereotype and some delay.
    SpawnMultiple {
        health: u32,
        nb: usize,
        spawned: usize,
        time_between: u64,
        elapsed: u64,
        pos: WorldPos,
        enemy_type: EnemyType,
    },
    /// Wait
    Wait { to_wait: u64, elapsed: u64 },
}

/// The instruction is over: a single spawn at once, a wait once its time went by,
/// a multiple spawn once all its enemies were spawned.
pub open spec fn instruction_done(i: LevelInstruction) -> bool {
    match i {
        LevelInstruction::SpawnEnemy { .. } => true,
        LevelInstruction::Wait { to_wait, elapsed } => elapsed >= to_wait,
        LevelInstruction::SpawnMultiple { nb, spawned, .. } => spawned >= nb,
    }
}

/// The enemy an instruction spawns.
pub open spec fn spawn_of(health: u32, pos: WorldPos, enemy_type: EnemyType) -> EnemySpawn {
    EnemySpawn { health, pos, enemy_type }
}

/// The spawn count of a multiple spawn can go up `n` more times.
pub open spec fn can_count(i: LevelInstruction, n: nat) -> bool {
    i matches LevelInstruction::SpawnMultiple { spawned, .. } ==> spawned + n <= usize::MAX
}

/// The instruction once started, and the enemy it spawns then.
pub open spec fn started(i: LevelInstruction) -> (LevelInstruction, Option<EnemySpawn>) {
    match i {
        LevelInstruction::SpawnEnemy { health, pos, enemy_type } => (i, Some(spawn_of(health, pos, enemy_type))),
        LevelInstruction::SpawnMultiple { health, nb, spawned, time_between, elapsed, pos, enemy_type } => (
            LevelInstruction::SpawnMultiple {
                health,
                nb,
                spawned: (spawned + 1) as usize,
                time_between,
                elapsed,
                pos,
                enemy_type,
            },
            Some(spawn_of(health, pos, enemy_type)),
        ),
        LevelInstruction::Wait { .. } => (i, None),
    }
}

/// The instruction after `dt` more microseconds, and the enemy it spawns then.
pub open spec fn stepped(i: LevelInstruction, dt: nat) -> (LevelInstruction, Option<EnemySpawn>) {
    match i {
        LevelInstruction::Wait { to_wait, elapsed } => (
            LevelInstruction::Wait { to_wait, elapsed: saturating_elapsed(elapsed as nat, dt) as u64 },
            None,
        ),
        LevelInstruction::SpawnMultiple { health, nb, spawned, time_between, elapsed, pos, enemy_type } => {
            let e = saturating_elapsed(elapsed as nat, dt);
            if e >= time_between {
                (
                    LevelInstruction::SpawnMultiple {
                        health,
                        nb,
                        spawned: (spawned + 1) as usize,
                        time_between,
                        elapsed: 0,
                        pos,
                        enemy_type,
                    },
                    Some(spawn_of(health, pos, enemy_type)),
                )
            } else {
                (
                    LevelInstruction::SpawnMultiple {
                        health,
                        nb,
                        spawned,
                        time_between,
                        elapsed: e as u64,
                        pos,
                        enemy_type,
                    },
                    None,
                )
            }
        },
        LevelInstruction::SpawnEnemy { .. } => (i, None),
    }
}

/// The spawns of an optional spawn.
pub open spec fn spawns_of(s: Option<EnemySpawn>) -> Seq<EnemySpawn> {
    match s {
        Some(x) => seq![x],
        None => Seq::empty(),
    }
}

impl LevelInstruction {
    /// Return true if can move to the next instruction.
    pub fn move_next(&self) -> (r: bool)
        ensures
            r == instruction_done(*self),
    {
        match *self {
            LevelInstruction::SpawnEnemy { .. } => true,
            LevelInstruction::Wait { to_wait, elapsed } => elapsed >= to_wait,
            LevelInstruction::SpawnMultiple { nb, spawned, .. } => spawned >= nb,
        }
    }

    /// Start the instruction: spawns at once spawn their first enemy.
    pub fn init(&mut self) -> (r: Option<EnemySpawn>)
        requires
            can_count(*old(self), 1),
        ensures
            (*final(self), r) == started(*old(self)),
    {
        match self {
            LevelInstruction::SpawnEnemy { health, pos, enemy_type } => Some(
                EnemySpawn { health: *health, pos: *pos, enemy_type: *enemy_type },
            ),
            LevelInstruction::SpawnMultiple { spawned, enemy_type, pos, health, .. } => {
                *spawned = *spawned + 1;
                Some(EnemySpawn { health: *health, pos: *pos, enemy_type: *enemy_type })
            },
            LevelInstruction::Wait { .. } => None,
        }
    }

    /// `dt` microseconds go by: a wait counts them; a multiple spawn counts them and
    /// spawns its next enemy once the time between spawns went by.
    pub fn update(&mut self, dt: u64) -> (r: Option<EnemySpawn>)
        requires
            can_count(*old(self), 1),
        ensures
            (*final(self), r) == stepped(*old(self), dt as nat),
    {
        match self {
            LevelInstruction::Wait { elapsed, .. } => {
                *elapsed = elapsed.saturating_add(dt);
                None
            },
            LevelInstruction::SpawnMultiple { spawned, enemy_type, pos, time_between, health, elapsed, .. } => {
                *elapsed = elapsed.saturating_add(dt);
                if *elapsed >= *time_between {
                    *spawned = *spawned + 1;
                    *elapsed = 0;
                    Some(EnemySpawn { health: *health, pos: *pos, enemy_type: *enemy_type })
                } else {
                    None
                }
            },
            LevelInstruction::SpawnEnemy { .. } => None,
        }
    }
}

/// Plays the instructions of a scripted level one after the other.
#[derive(Debug)]
pub struct LevelSystem {
    instructions: Vec<LevelInstruction>,
    current_instruction: usize,
    init_next: bool,
}

impl LevelSystem {
    pub closed spec fn spec_instructions(&self) -> Seq<LevelInstruction> {
        self.instructions@
    }

    pub closed spec fn spec_current(&self) -> nat {
        self.current_instruction as nat
    }

    /// The current instruction was not started yet.
    pub closed spec fn spec_init_next(&self) -> bool {
        self.init_next
    }

    /// The current instruction, if any, can count its spawns during a frame.
    pub open spec fn can_update(&self) -> bool {
        self.spec_current() < self.spec_instructions().len() ==> can_count(
            self.spec_instructions()[self.spec_current() as int],
            2,
        )
    }

    pub fn new(instructions: Vec<LevelInstruction>) -> (r: Self)
        ensures
            r.spec_instructions() == instructions@,
            r.spec_current() == 0,
            r.spec_init_next(),
    {
        Self { instructions, current_instruction: 0, init_next: true }
    }

    /// Can `update` be called now (see `can_update`)?
    pub fn check_update(&self) -> (r: bool)
        ensures
            r == self.can_update(),
    {
        if self.current_instruction < self.instructions.len() {
            match self.instructions[self.current_instruction] {
                LevelInstruction::SpawnMultiple { spawned, .. } => spawned <= usize::MAX - 2,
                _ => true,
            }
        } else {
            true
        }
    }

    /// One frame of `dt` microseconds: the current instruction is started if it was
    /// not, then runs; once it is over the next one becomes current. The enemies to
    /// spawn, in order. Nothing happens after the last instruction.
    pub fn update(&mut self, dt: u64) -> (r: Vec<EnemySpawn>)
        requires
            old(self).can_update(),
        ensures
            old(self).spec_current() >= old(self).spec_instructions().len() ==> *final(self) == *old(self)
                && r@.len() == 0,
            old(self).spec_current() < old(self).spec_instructions().len() ==> {
                let i = old(self).spec_current() as int;
                let (a, s1) = if old(self).spec_init_next() {
                    started(old(self).spec_instructions()[i])
                } else {
                    (old(self).spec_instructions()[i], None)
                };
                let (b, s2) = stepped(a, dt as nat);
                &&& final(self).spec_instructions() == old(self).spec_instructions().update(i, b)
                &&& r@ == spawns_of(s1) + spawns_of(s2)
                &&& final(self).spec_current() == if instruction_done(b) {
                    old(self).spec_current() + 1
                } else {
                    old(self).spec_current()
                }
                &&& final(self).spec_init_next() == instruction_done(b)
            },
    {
        if self.current_instruction >= self.instructions.len() {
            return Vec::new();
        }
        let mut spawns: Vec<EnemySpawn> = Vec::new();
        let idx = self.current_instruction;
        let mut instruction = self.instructions[idx];
        if self.init_next {
            if let Some(s) = instruction.init() {
                spawns.push(s);
            }
            self.init_next = false;
        }
        if let Some(s) = instruction.update(dt) {
            spawns.push(s);
        }
        let done = instruction.move_next();
        self.instructions.set(idx, instruction);
        if done {
            self.current_instruction = idx + 1;
            self.init_next = true;
        }
        spawns
    }
}

/// A multiple spawn spawns its next enemy once `time_between` microseconds went by
/// since the last one, counting the time already elapsed, and then starts counting
/// again from zero: right after a spawn, a step shorter than `time_between` spawns
/// nothing. Each spawn counts one more enemy spawned.
pub proof fn law_spawns_are_time_between_apart(i: LevelInstruction, dt: nat, dt2: nat)
    requires
        i is SpawnMultiple,
        can_count(i, 1),
    ensures
        ({
            let (j, s) = stepped(i, dt);
            &&& s is Some <==> i->SpawnMultiple_elapsed + dt >= i->SpawnMultiple_time_between
            &&& s is Some ==> j->SpawnMultiple_elapsed == 0 && j->SpawnMultiple_spawned == i->SpawnMultiple_spawned + 1
            &&& s is None ==> j->SpawnMultiple_elapsed == i->SpawnMultiple_elapsed + dt
                && j->SpawnMultiple_spawned == i->SpawnMultiple_spawned
            &&& j is SpawnMultiple
            &&& j->SpawnMultiple_time_between == i->SpawnMultiple_time_between
            &&& (s is Some && dt2 < i->SpawnMultiple_time_between) ==> stepped(j, dt2).1 is None
        }),
{
}

/// Starting an instruction spawns its enemy at once for a spawn (a multiple spawn
/// counts it), nothing for a wait; a wait never spawns, and a single spawn spawns
/// nothing more once started. The enemy spawned has the instruction's health, position
/// and behaviour.
pub proof fn law_start_spawns_once(i: LevelInstruction, dt: nat)
    requires
        can_count(i, 1),
    ensures
        i is Wait ==> started(i).1 is None && stepped(i, dt).1 is None,
        i is SpawnEnemy ==> started(i).1 == Some(
            EnemySpawn { health: i->SpawnEnemy_health, pos: i->SpawnEnemy_pos, enemy_type: i->SpawnEnemy_enemy_type },
        ) && stepped(i, dt).1 is None && instruction_done(started(i).0),
        i is SpawnMultiple ==> started(i).1 == Some(
            EnemySpawn {
                health: i->SpawnMultiple_health,
                pos: i->SpawnMultiple_pos,
                enemy_type: i->SpawnMultiple_enemy_type,
            },
        ) && started(i).0->SpawnMultiple_spawned == i->SpawnMultiple_spawned + 1
            && started(i).0->SpawnMultiple_elapsed == i->SpawnMultiple_elapsed,
        i is SpawnMultiple ==> (stepped(i, dt).1 matches Some(sp) ==> sp == (EnemySpawn {
            health: i->SpawnMultiple_health,
            pos: i->SpawnMultiple_pos,
            enemy_type: i->SpawnMultiple_enemy_type,
        })),
{
}

/// A wait is over once its time went by: whatever the frames, after `to_wait`
/// microseconds in all the level goes on.
pub proof fn law_wait_ends(to_wait: u64, elapsed: u64, dt: nat)
    requires
        elapsed + dt >= to_wait,
    ensures
        instruction_done(stepped(LevelInstruction::Wait { to_wait, elapsed }, dt).0),
{
}

} // verus!
