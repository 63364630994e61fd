use crate::animation::{Animation, AnimationController};
use crate::collision::CollisionLayer;
use crate::explosion::keyframe;
use crate::enemy::{Boss1, Enemy, EnemyType, LastBoss, MovementKind, Satellite, Spammer};
use crate::player::PlayerStats;
use crate::timer::Timer;
use vstd::prelude::*;

verus! {

broadcast use crate::timer::group_timer;

/// What an enemy prefab holds besides its geometry (size, mass, speed, hull points):
/// its sprite, its collision layer (enemies have no mask), its behaviour and loot, the
/// invulnerability after a hit, and its animation if it has one.
#[derive(Debug)]
pub struct EnemyPrefabData {
    pub sprite: String,
    pub collision_layer: CollisionLayer,
    pub enemy: Enemy,
    pub invulnerability: Timer,
    pub animation: Option<AnimationController>,
}

/// The enemy prefabs, one per prefab file.
#[derive(Debug, Copy, Clone, PartialEq, Eq, Structural)]
pub enum EnemyPrefabKind {
    Mine,
    MineLander,
    Wanderer,
    BaseEnemy,
    Carrier,
    Kamikaze,
    BaseEnemy2,
    BaseEnemy3,
    Spammer,
    LastBoss,
    Satellite,
    Boss1,
}

/// File name (without extension) of each prefab.
pub open spec fn prefab_name(kind: EnemyPrefabKind) -> Seq<char> {
    match kind {
        EnemyPrefabKind::Mine => "mine"@,
        EnemyPrefabKind::MineLander => "mine_lander"@,
        EnemyPrefabKind::Wanderer => "wanderer"@,
        EnemyPrefabKind::BaseEnemy => "base_enemy"@,
        EnemyPrefabKind::Carrier => "carrier"@,
        EnemyPrefabKind::Kamikaze => "kamikaze"@,
        EnemyPrefabKind::BaseEnemy2 => "base_enemy_2"@,
        EnemyPrefabKind::BaseEnemy3 => "base_enemy_3"@,
        EnemyPrefabKind::Spammer => "spammer"@,
        EnemyPrefabKind::LastBoss => "last_boss"@,
        EnemyPrefabKind::Satellite => "satellite"@,
        EnemyPrefabKind::Boss1 => "boss1"@,
    }
}

impl EnemyPrefabKind {
    /// Generate the prefab of this kind.
    pub fn generate(&self) -> (r: EnemyPrefabData)
        ensures
            is_prefab(r, *self),
    {
        match self {
            EnemyPrefabKind::Mine => gen_mine(),
            EnemyPrefabKind::MineLander => gen_mine_lander(),
            EnemyPrefabKind::Wanderer => gen_wanderer(),
            EnemyPrefabKind::BaseEnemy => gen_base_enemy(),
            EnemyPrefabKind::Carrier => gen_carrier(),
            EnemyPrefabKind::Kamikaze => gen_kamikaze(),
            EnemyPrefabKind::BaseEnemy2 => gen_base_enemy_2(),
            EnemyPrefabKind::BaseEnemy3 => gen_base_enemy_3(),
            EnemyPrefabKind::Spammer => gen_spammer(),
            EnemyPrefabKind::LastBoss => gen_last_boss(),
            EnemyPrefabKind::Satellite => gen_satellite(),
            EnemyPrefabKind::Boss1 => gen_boss1(),
        }
    }

    /// The prefab of that file name, if it is one of the generated prefabs.
    pub fn from_name(name: &String) -> (r: Option<EnemyPrefabKind>)
        ensures
            r matches Some(k) ==> prefab_name(k) == name@,
            r is None ==> forall|k: EnemyPrefabKind| prefab_name(k) != name@,
    {
        let kinds: [EnemyPrefabKind; 12] = [
            EnemyPrefabKind::Mine,
            EnemyPrefabKind::MineLander,
            EnemyPrefabKind::Wanderer,
            EnemyPrefabKind::BaseEnemy,
            EnemyPrefabKind::Carrier,
            EnemyPrefabKind::Kamikaze,
            EnemyPrefabKind::BaseEnemy2,
            EnemyPrefabKind::BaseEnemy3,
            EnemyPrefabKind::Spammer,
            EnemyPrefabKind::LastBoss,
            EnemyPrefabKind::Satellite,
            EnemyPrefabKind::Boss1,
        ];
        let mut i: usize = 0;
        while i < 12
            invariant
                i <= 12,
                kinds@.len() == 12,
                forall|j: int| 0 <= j < i ==> prefab_name(#[trigger] kinds@[j]) != name@,
            decreases 12 - i,
        {
            let k = kinds[i];
            let candidate = String::from_str(k.name());
            if candidate == *name {
                return Some(k);
            }
            i = i + 1;
        }
        proof {
            assert forall|k: EnemyPrefabKind| prefab_name(k) != name@ by {
                let j: int = match k {
                    EnemyPrefabKind::Mine => 0,
                    EnemyPrefabKind::MineLander => 1,
                    EnemyPrefabKind::Wanderer => 2,
                    EnemyPrefabKind::BaseEnemy => 3,
                    EnemyPrefabKind::Carrier => 4,
                    EnemyPrefabKind::Kamikaze => 5,
                    EnemyPrefabKind::BaseEnemy2 => 6,
                    EnemyPrefabKind::BaseEnemy3 => 7,
                    EnemyPrefabKind::Spammer => 8,
                    EnemyPrefabKind::LastBoss => 9,
                    EnemyPrefabKind::Satellite => 10,
                    EnemyPrefabKind::Boss1 => 11,
                };
                assert(kinds@[j] == k);
            }
        }
        None
    }

    /// File name (without extension) of the prefab.
    pub fn name(&self) -> (r: &'static str)
        ensures
            r@ == prefab_name(*self),
    {
        match self {
            EnemyPrefabKind::Mine => "mine",
            EnemyPrefabKind::MineLander => "mine_lander",
            EnemyPrefabKind::Wanderer => "wanderer",
            EnemyPrefabKind::BaseEnemy => "base_enemy",
            EnemyPrefabKind::Carrier => "carrier",
            EnemyPrefabKind::Kamikaze => "kamikaze",
            EnemyPrefabKind::BaseEnemy2 => "base_enemy_2",
            EnemyPrefabKind::BaseEnemy3 => "base_enemy_3",
            EnemyPrefabKind::Spammer => "spammer",
            EnemyPrefabKind::LastBoss => "last_boss",
            EnemyPrefabKind::Satellite => "satellite",
            EnemyPrefabKind::Boss1 => "boss1",
        }
    }
}

/// The enemy part of each generated prefab.
pub open spec fn prefab_enemy(kind: EnemyPrefabKind) -> Enemy {
    match kind {
        EnemyPrefabKind::Mine => Enemy {
            enemy_type: EnemyType::Mine {
                trigger_distance: 200,
                explosion_timer: Timer::of_micros_spec(2_000_000).with_enabled(false),
            },
            scrap_drop: (0, 0),
            pickup_drop_percent: 0,
            movement: MovementKind::Nothing,
        },
        EnemyPrefabKind::MineLander => Enemy {
            enemy_type: EnemyType::MineLander(Timer::of_micros_spec(4_000_000).with_enabled(true)),
            scrap_drop: (10, 70),
            pickup_drop_percent: 2,
            movement: MovementKind::RandomPath,
        },
        EnemyPrefabKind::Wanderer => Enemy {
            enemy_type: EnemyType::Wanderer(Timer::of_micros_spec(4_000_000).with_enabled(true)),
            scrap_drop: (10, 70),
            pickup_drop_percent: 2,
            movement: MovementKind::RandomPath,
        },
        EnemyPrefabKind::BaseEnemy => Enemy {
            enemy_type: EnemyType::FollowPlayer(Timer::of_micros_spec(3_000_000).with_enabled(true)),
            scrap_drop: (10, 40),
            pickup_drop_percent: 2,
            movement: MovementKind::Follow,
        },
        EnemyPrefabKind::Carrier => Enemy {
            enemy_type: EnemyType::Carrier {
                time_between_deploy: Timer::of_micros_spec(12_000_000).with_enabled(true),
                nb_of_spaceships: 4,
            },
            scrap_drop: (10, 40),
            pickup_drop_percent: 70,
            movement: MovementKind::Follow,
        },
        EnemyPrefabKind::Kamikaze => Enemy {
            enemy_type: EnemyType::Kamikaze,
            scrap_drop: (10, 40),
            pickup_drop_percent: 2,
            movement: MovementKind::GoToPlayer,
        },
        EnemyPrefabKind::BaseEnemy2 => Enemy {
            enemy_type: EnemyType::FollowPlayer(Timer::of_micros_spec(1_000_000).with_enabled(true)),
            scrap_drop: (30, 60),
            pickup_drop_percent: 5,
            movement: MovementKind::Follow,
        },
        EnemyPrefabKind::BaseEnemy3 => Enemy {
            enemy_type: EnemyType::FollowPlayer(Timer::of_micros_spec(1_000_000).with_enabled(true)),
            scrap_drop: (50, 90),
            pickup_drop_percent: 10,
            movement: MovementKind::Follow,
        },
        EnemyPrefabKind::Spammer => Enemy {
            enemy_type: EnemyType::Spammer(
                Spammer {
                    shoot_timer: Timer::of_micros_spec(1_000_000).with_enabled(true),
                    nb_shot: 3,
                    current_shot: 0,
                    salve_timer: Timer::of_micros_spec(6_000_000),
                },
            ),
            scrap_drop: (20, 70),
            pickup_drop_percent: 10,
            movement: MovementKind::Follow,
        },
        EnemyPrefabKind::LastBoss => Enemy {
            enemy_type: EnemyType::LastBoss(
                LastBoss {
                    shoot_timer: Timer::of_micros_spec(300_000).with_enabled(true),
                    nb_shot: 10,
                    current_shot: 0,
                    salve_timer: Timer::of_micros_spec(5_000_000),
                },
            ),
            scrap_drop: (20, 100),
            pickup_drop_percent: 100,
            movement: MovementKind::RandomPath,
        },
        EnemyPrefabKind::Satellite => Enemy {
            enemy_type: EnemyType::Satellite(
                Satellite { shoot_timer: Timer::of_micros_spec(3_000_000).with_enabled(true), shoot_distance: 800 },
            ),
            scrap_drop: (10, 40),
            pickup_drop_percent: 2,
            movement: MovementKind::Follow,
        },
        EnemyPrefabKind::Boss1 => Enemy {
            enemy_type: EnemyType::Boss1(
                Boss1 {
                    shoot_timer: Timer::of_micros_spec(300_000).with_enabled(true),
                    nb_shot: 20,
                    current_shot: 0,
                    salve_timer: Timer::of_micros_spec(5_000_000),
                },
            ),
            scrap_drop: (20, 100),
            pickup_drop_percent: 100,
            movement: MovementKind::Follow,
        },
    }
}

/// The sprite of each generated prefab.
pub open spec fn prefab_sprite(kind: EnemyPrefabKind) -> Seq<char> {
    match kind {
        EnemyPrefabKind::Mine => "explosion-05.png"@,
        EnemyPrefabKind::MineLander => "red_03.png"@,
        EnemyPrefabKind::Wanderer => "red_04.png"@,
        EnemyPrefabKind::BaseEnemy => "darkgrey_02.png"@,
        EnemyPrefabKind::Carrier => "large_red_01.png"@,
        EnemyPrefabKind::Kamikaze => "metalic_06.png"@,
        EnemyPrefabKind::BaseEnemy2 => "metalic_06.png"@,
        EnemyPrefabKind::BaseEnemy3 => "darkgrey_04.png"@,
        EnemyPrefabKind::Spammer => "green_04.png"@,
        EnemyPrefabKind::LastBoss => "large_purple_01.png"@,
        EnemyPrefabKind::Satellite => "sat.png"@,
        EnemyPrefabKind::Boss1 => "large_grey_02.png"@,
    }
}

/// Invulnerability after a hit, in microseconds: one second for the spammer and the
/// satellite, half a second for the others.
pub open spec fn prefab_invulnerability(kind: EnemyPrefabKind) -> u64 {
    match kind {
        EnemyPrefabKind::Spammer | EnemyPrefabKind::Satellite => 1_000_000,
        _ => 500_000,
    }
}

/// `data` is the generated prefab `kind`: enemies collide as enemies, mines as mines;
/// only the mine has an animation.
pub open spec fn is_prefab(data: EnemyPrefabData, kind: EnemyPrefabKind) -> bool {
    &&& data.enemy == prefab_enemy(kind)
    &&& data.sprite@ == prefab_sprite(kind)
    &&& data.collision_layer.bits == if kind == EnemyPrefabKind::Mine {
        CollisionLayer::MINE
    } else {
        CollisionLayer::ENEMY
    }
    &&& data.invulnerability == Timer::of_micros_spec(prefab_invulnerability(kind))
    &&& (kind != EnemyPrefabKind::Mine ==> data.animation is None)
}

fn enemy_prefab(sprite: &str, layer: u32, enemy: Enemy, invulnerability: u64) -> (r: EnemyPrefabData)
    ensures
        r.sprite@ == sprite@,
        r.collision_layer.bits == layer,
        r.enemy == enemy,
        r.invulnerability == Timer::of_micros_spec(invulnerability),
        r.animation is None,
{
    EnemyPrefabData {
        sprite: String::from_str(sprite),
        collision_layer: CollisionLayer::from_bits(layer),
        enemy,
        invulnerability: Timer::of_micros(invulnerability),
        animation: None,
    }
}

/// Keyframes of the mine's animation, shown once it is armed.
pub open spec fn mine_keyframes() -> Seq<(Seq<char>, usize)> {
    seq![
        ("windshield_wiper/00.png"@, 0usize),
        ("windshield_wiper/01.png"@, 1usize),
        ("windshield_wiper/02.png"@, 2usize),
        ("windshield_wiper/03.png"@, 3usize),
        ("windshield_wiper/04.png"@, 4usize),
        ("windshield_wiper/05.png"@, 5usize),
        ("windshield_wiper/06.png"@, 6usize),
        ("windshield_wiper/07.png"@, 7usize),
        ("windshield_wiper/08.png"@, 8usize),
        ("windshield_wiper/09.png"@, 9usize),
        ("windshield_wiper/10.png"@, 10usize),
    ]
}

/// A mine: triggered at 200 units, explodes two seconds later.
pub fn gen_mine() -> (r: EnemyPrefabData)
    ensures
        is_prefab(r, EnemyPrefabKind::Mine),
        r.animation matches Some(c) && {
            &&& c.animations@.len() == 1
            &&& c.animations@[0].0@ == "boum"@
            &&& c.animations@[0].1.keyframes@.map_values(|k: (String, usize)| (k.0@, k.1)) == mine_keyframes()
            &&& c.animations@[0].1.current_index == 0
            &&& c.animations@[0].1.elapsed_frame == 0
            &&& c.current_animation is None
            &&& !c.delete_on_finished
        },
{
    let mut timer = Timer::of_micros(2_000_000);
    timer.stop();
    let enemy = Enemy {
        enemy_type: EnemyType::Mine { trigger_distance: 200, explosion_timer: timer },
        scrap_drop: (0, 0),
        pickup_drop_percent: 0,
        movement: MovementKind::Nothing,
    };
    let mut data = enemy_prefab("explosion-05.png", CollisionLayer::MINE, enemy, 500_000);
    let keyframes = vec![
        keyframe("windshield_wiper/00.png", 0),
        keyframe("windshield_wiper/01.png", 1),
        keyframe("windshield_wiper/02.png", 2),
        keyframe("windshield_wiper/03.png", 3),
        keyframe("windshield_wiper/04.png", 4),
        keyframe("windshield_wiper/05.png", 5),
        keyframe("windshield_wiper/06.png", 6),
        keyframe("windshield_wiper/07.png", 7),
        keyframe("windshield_wiper/08.png", 8),
        keyframe("windshield_wiper/09.png", 9),
        keyframe("windshield_wiper/10.png", 10),
    ];
    let animation = Animation::new(keyframes);
    assert(animation.keyframes@.map_values(|k: (String, usize)| (k.0@, k.1)) =~= mine_keyframes());
    data.animation = Some(
        AnimationController {
            animations: vec![(String::from_str("boum"), animation)],
            current_animation: None,
            delete_on_finished: false,
        },
    );
    data
}

/// Drops a mine every four seconds while wandering.
pub fn gen_mine_lander() -> (r: EnemyPrefabData)
    ensures
        is_prefab(r, EnemyPrefabKind::MineLander),
{
    let enemy = Enemy {
        enemy_type: EnemyType::MineLander(Timer::running(4_000_000)),
        scrap_drop: (10, 70),
        pickup_drop_percent: 2,
        movement: MovementKind::RandomPath,
    };
    enemy_prefab("red_03.png", CollisionLayer::ENEMY, enemy, 500_000)
}

/// Shoots in four directions every four seconds while wandering.
pub fn gen_wanderer() -> (r: EnemyPrefabData)
    ensures
        is_prefab(r, EnemyPrefabKind::Wanderer),
{
    let enemy = Enemy {
        enemy_type: EnemyType::Wanderer(Timer::running(4_000_000)),
        scrap_drop: (10, 70),
        pickup_drop_percent: 2,
        movement: MovementKind::RandomPath,
    };
    enemy_prefab("red_04.png", CollisionLayer::ENEMY, enemy, 500_000)
}

/// Follows the player and shoots every three seconds.
pub fn gen_base_enemy() -> (r: EnemyPrefabData)
    ensures
        is_prefab(r, EnemyPrefabKind::BaseEnemy),
{
    let enemy = Enemy {
        enemy_type: EnemyType::FollowPlayer(Timer::running(3_000_000)),
        scrap_drop: (10, 40),
        pickup_drop_percent: 2,
        movement: MovementKind::Follow,
    };
    enemy_prefab("darkgrey_02.png", CollisionLayer::ENEMY, enemy, 500_000)
}

/// Deploys four kamikazes every twelve seconds.
pub fn gen_carrier() -> (r: EnemyPrefabData)
    ensures
        is_prefab(r, EnemyPrefabKind::Carrier),
{
    let enemy = Enemy {
        enemy_type: EnemyType::Carrier { time_between_deploy: Timer::running(12_000_000), nb_of_spaceships: 4 },
        scrap_drop: (10, 40),
        pickup_drop_percent: 70,
        movement: MovementKind::Follow,
    };
    enemy_prefab("large_red_01.png", CollisionLayer::ENEMY, enemy, 500_000)
}

/// Goes straight to the player and explodes.
pub fn gen_kamikaze() -> (r: EnemyPrefabData)
    ensures
        is_prefab(r, EnemyPrefabKind::Kamikaze),
{
    let enemy = Enemy {
        enemy_type: EnemyType::Kamikaze,
        scrap_drop: (10, 40),
        pickup_drop_percent: 2,
        movement: MovementKind::GoToPlayer,
    };
    enemy_prefab("metalic_06.png", CollisionLayer::ENEMY, enemy, 500_000)
}

/// Follows the player and shoots every second.
pub fn gen_base_enemy_2() -> (r: EnemyPrefabData)
    ensures
        is_prefab(r, EnemyPrefabKind::BaseEnemy2),
{
    let enemy = Enemy {
        enemy_type: EnemyType::FollowPlayer(Timer::running(1_000_000)),
        scrap_drop: (30, 60),
        pickup_drop_percent: 5,
        movement: MovementKind::Follow,
    };
    enemy_prefab("metalic_06.png", CollisionLayer::ENEMY, enemy, 500_000)
}

/// Follows the player and shoots every second; drops more scrap.
pub fn gen_base_enemy_3() -> (r: EnemyPrefabData)
    ensures
        is_prefab(r, EnemyPrefabKind::BaseEnemy3),
{
    let enemy = Enemy {
        enemy_type: EnemyType::FollowPlayer(Timer::running(1_000_000)),
        scrap_drop: (50, 90),
        pickup_drop_percent: 10,
        movement: MovementKind::Follow,
    };
    enemy_prefab("darkgrey_04.png", CollisionLayer::ENEMY, enemy, 500_000)
}

/// Salvos of three fans, one second apart, every six seconds.
pub fn gen_spammer() -> (r: EnemyPrefabData)
    ensures
        is_prefab(r, EnemyPrefabKind::Spammer),
{
    let enemy = Enemy {
        enemy_type: EnemyType::Spammer(
            Spammer {
                shoot_timer: Timer::running(1_000_000),
                nb_shot: 3,
                current_shot: 0,
                salve_timer: Timer::of_micros(6_000_000),
            },
        ),
        scrap_drop: (20, 70),
        pickup_drop_percent: 10,
        movement: MovementKind::Follow,
    };
    enemy_prefab("green_04.png", CollisionLayer::ENEMY, enemy, 1_000_000)
}

/// Salvos of ten rings, 0.3 second apart, every five seconds; always drops a pickup.
pub fn gen_last_boss() -> (r: EnemyPrefabData)
    ensures
        is_prefab(r, EnemyPrefabKind::LastBoss),
{
    let enemy = Enemy {
        enemy_type: EnemyType::LastBoss(
            LastBoss {
                shoot_timer: Timer::running(300_000),
                nb_shot: 10,
                current_shot: 0,
                salve_timer: Timer::of_micros(5_000_000),
            },
        ),
        scrap_drop: (20, 100),
        pickup_drop_percent: 100,
        movement: MovementKind::RandomPath,
    };
    enemy_prefab("large_purple_01.png", CollisionLayer::ENEMY, enemy, 500_000)
}

/// Launches a missile every three seconds at a player closer than 800 units.
pub fn gen_satellite() -> (r: EnemyPrefabData)
    ensures
        is_prefab(r, EnemyPrefabKind::Satellite),
{
    let enemy = Enemy {
        enemy_type: EnemyType::Satellite(Satellite { shoot_timer: Timer::running(3_000_000), shoot_distance: 800 }),
        scrap_drop: (10, 40),
        pickup_drop_percent: 2,
        movement: MovementKind::Follow,
    };
    enemy_prefab("sat.png", CollisionLayer::ENEMY, enemy, 1_000_000)
}

/// Salvos of twenty bullets, 0.3 second apart, every five seconds; always drops a pickup.
pub fn gen_boss1() -> (r: EnemyPrefabData)
    ensures
        is_prefab(r, EnemyPrefabKind::Boss1),
{
    let enemy = Enemy {
        enemy_type: EnemyType::Boss1(
            Boss1 {
                shoot_timer: Timer::running(300_000),
                nb_shot: 20,
                current_shot: 0,
                salve_timer: Timer::of_micros(5_000_000),
            },
        ),
        scrap_drop: (20, 100),
        pickup_drop_percent: 100,
        movement: MovementKind::Follow,
    };
    enemy_prefab("large_grey_02.png", CollisionLayer::ENEMY, enemy, 500_000)
}

/// What the player prefab holds besides its geometry and hull points.
#[derive(Debug)]
pub struct PlayerPrefabData {
    pub sprite: String,
    pub collision_layer: CollisionLayer,
    pub stats: PlayerStats,
    pub invulnerability: Timer,
}

/// The player's ship: half of its shots are critical, a boost every second, half a
/// second of invulnerability after a hit.
pub fn gen_player() -> (r: PlayerPrefabData)
    ensures
        r.sprite@ == "blue_05.png"@,
        r.collision_layer.bits == CollisionLayer::PLAYER,
        r.stats.crit_percent == 50,
        r.stats.missile_percent == 0,
        r.stats.boost_timer == Timer::of_micros_spec(1_000_000).with_enabled(true),
        r.invulnerability == Timer::of_micros_spec(500_000),
{
    PlayerPrefabData {
        sprite: String::from_str("blue_05.png"),
        collision_layer: CollisionLayer::from_bits(CollisionLayer::PLAYER),
        stats: PlayerStats { crit_percent: 50, missile_percent: 0, boost_timer: Timer::running(1_000_000) },
        invulnerability: Timer::of_micros(500_000),
    }
}

/// Every enemy a wave can name has a generated prefab.
pub proof fn law_wave_enemies_have_prefabs(i: int)
    requires
        0 <= i < crate::wave::ENEMY_PREFABS@.len(),
    ensures
        exists|kind: EnemyPrefabKind| prefab_name(kind) == (#[trigger] crate::wave::ENEMY_PREFABS@[i])@,
{
    let names = crate::wave::ENEMY_PREFABS@;
    assert(prefab_name(EnemyPrefabKind::BaseEnemy) == names[0]@);
    assert(prefab_name(EnemyPrefabKind::BaseEnemy2) == names[1]@);
    assert(prefab_name(EnemyPrefabKind::BaseEnemy3) == names[2]@);
    assert(prefab_name(EnemyPrefabKind::Satellite) == names[3]@);
    assert(prefab_name(EnemyPrefabKind::Boss1) == names[4]@);
    assert(prefab_name(EnemyPrefabKind::LastBoss) == names[5]@);
    assert(prefab_name(EnemyPrefabKind::MineLander) == names[6]@);
    assert(prefab_name(EnemyPrefabKind::Mine) == names[7]@);
    assert(prefab_name(EnemyPrefabKind::Wanderer) == names[8]@);
    assert(prefab_name(EnemyPrefabKind::Spammer) == names[9]@);
    assert(prefab_name(EnemyPrefabKind::Carrier) == names[10]@);
    assert(prefab_name(EnemyPrefabKind::Kamikaze) == names[11]@);
}

} // verus!
