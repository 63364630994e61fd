use spacegame::bullet::BulletType;
use spacegame::collision::{
    collision_candidates, process_collisions, CollisionEvent, CollisionFilter, CollisionLayer,
    CollisionParty,
};
use spacegame::enemy::{
    Boss1, Enemy, EnemyCommand, EnemyType, LastBoss, Route, Satellite, ShotBullet, ShotPattern, ShotSound,
    Spammer,
};
use spacegame::entity::EntityId;
use spacegame::timer::Timer;

fn filter(layer: u32, mask: Option<u32>) -> CollisionFilter {
    CollisionFilter {
        collision_layer: CollisionLayer::from_bits(layer),
        collision_mask: mask.map(CollisionLayer::from_bits),
    }
}

#[test]
fn layers_union_and_intersect() {
    let player = CollisionLayer::from_bits(CollisionLayer::PLAYER);
    let enemy = CollisionLayer::from_bits(CollisionLayer::ENEMY);
    let both = player.union(enemy);
    assert_eq!(both.bits, CollisionLayer::PLAYER | CollisionLayer::ENEMY);
    assert!(both.intersects(player));
    assert!(!player.intersects(enemy));
}

#[test]
fn mask_of_second_body_decides() {
    let player_bullet = filter(CollisionLayer::PLAYER_BULLET, Some(CollisionLayer::ENEMY));
    let enemy = filter(
        CollisionLayer::ENEMY,
        Some(CollisionLayer::PLAYER_BULLET | CollisionLayer::PLAYER),
    );
    assert!(player_bullet.can_collide(&enemy));
    assert!(enemy.can_collide(&player_bullet));
    let asteroid = filter(CollisionLayer::ASTEROID, None);
    // the asteroid has no mask: the bullet's mask decides, and it does not name asteroids
    assert!(!asteroid.can_collide(&player_bullet));
    // two bodies without masks never collide
    assert!(!asteroid.can_collide(&filter(CollisionLayer::PLAYER, None)));
}

#[test]
fn candidates_are_ordered_pairs_that_can_collide() {
    let filters = vec![
        filter(CollisionLayer::PLAYER, Some(CollisionLayer::ENEMY_BULLET)),
        filter(CollisionLayer::ENEMY_BULLET, Some(CollisionLayer::PLAYER)),
        filter(CollisionLayer::ASTEROID, None),
        filter(CollisionLayer::ENEMY_BULLET, Some(CollisionLayer::PLAYER)),
    ];
    assert_eq!(collision_candidates(&filters), vec![(0, 1), (0, 3)]);
    assert_eq!(collision_candidates(&vec![]), vec![]);
}

fn body(e: u64, has_health: bool) -> CollisionParty {
    CollisionParty { entity: EntityId(e), has_health, bullet_alive: None, is_missile: false }
}

fn bullet(e: u64) -> CollisionParty {
    CollisionParty { entity: EntityId(e), has_health: false, bullet_alive: Some(true), is_missile: false }
}

#[test]
fn bullet_hits_body_with_health_once() {
    let pairs = vec![(body(1, true), bullet(10)), (bullet(10), body(2, true))];
    let events = process_collisions(&pairs);
    assert_eq!(
        events,
        vec![
            CollisionEvent::Delete(EntityId(10)),
            CollisionEvent::Hit { target: EntityId(1), bullet: EntityId(10) },
            CollisionEvent::Bounce(EntityId(1), EntityId(10)),
            // the bullet died on its first collision: no second hit
            CollisionEvent::Bounce(EntityId(10), EntityId(2)),
        ]
    );
}

#[test]
fn bullet_on_wall_is_removed() {
    let events = process_collisions(&vec![(body(5, false), bullet(11))]);
    assert_eq!(
        events,
        vec![CollisionEvent::Delete(EntityId(11)), CollisionEvent::Bounce(EntityId(5), EntityId(11))]
    );
}

#[test]
fn missile_explodes_on_contact() {
    let missile = CollisionParty { entity: EntityId(20), has_health: false, bullet_alive: None, is_missile: true };
    let events = process_collisions(&vec![(missile, body(3, true))]);
    assert_eq!(
        events,
        vec![CollisionEvent::Delete(EntityId(20)), CollisionEvent::MissileExplosion(EntityId(20))]
    );
}

#[test]
fn dead_bullet_and_self_collision_do_nothing_special() {
    let dead = CollisionParty { entity: EntityId(30), has_health: false, bullet_alive: Some(false), is_missile: false };
    assert_eq!(
        process_collisions(&vec![(body(1, true), dead)]),
        vec![CollisionEvent::Bounce(EntityId(1), EntityId(30))]
    );
    assert_eq!(process_collisions(&vec![(body(1, true), body(1, true))]), vec![]);
}

fn salvo_timers() -> (Timer, Timer) {
    (Timer::with_elapsed(100, 0, true), Timer::with_elapsed(1000, 0, false))
}

#[test]
fn boss_fires_a_salvo_then_waits() {
    let (shoot, salve) = salvo_timers();
    let mut boss = Boss1 { shoot_timer: shoot, nb_shot: 2, current_shot: 0, salve_timer: salve };
    assert!(boss.should_shoot());
    assert_eq!(boss.update(50), None);
    assert_eq!(boss.update(50), Some(0));
    assert_eq!(boss.update(100), Some(1));
    assert!(!boss.should_shoot());
    // salvo over: wait for the salvo timer
    assert_eq!(boss.update(999), None);
    assert_eq!(boss.current_shot, 2);
    assert_eq!(boss.update(1), None);
    assert_eq!(boss.current_shot, 0);
    assert!(boss.shoot_timer.is_enabled());
    assert!(!boss.salve_timer.is_enabled());
    assert_eq!(boss.salve_timer.elapsed(), 0);
}

#[test]
fn salvo_past_its_size_keeps_firing() {
    let (shoot, salve) = salvo_timers();
    let mut boss = Boss1 { shoot_timer: shoot, nb_shot: 2, current_shot: 5, salve_timer: salve };
    assert!(boss.should_shoot());
    assert_eq!(boss.update(100), Some(5));
    assert_eq!(boss.current_shot, 6);
    assert!(!boss.salve_timer.is_enabled());
}

#[test]
fn last_boss_shoots_rings_turned_by_shot() {
    let (shoot, salve) = salvo_timers();
    let mut e = EnemyType::LastBoss(LastBoss { shoot_timer: shoot, nb_shot: 3, current_shot: 1, salve_timer: salve });
    assert_eq!(
        e.update(100, 5000),
        EnemyCommand::Shoot(ShotPattern::Ring { shot: 1 }, ShotSound::Laser04)
    );
}

#[test]
fn spammer_shoots_fans() {
    let (shoot, salve) = salvo_timers();
    let mut s = Spammer { shoot_timer: shoot, nb_shot: 1, current_shot: 0, salve_timer: salve };
    assert_eq!(s.update(100), Some(0));
    let mut e = EnemyType::Spammer(Spammer { shoot_timer: shoot, nb_shot: 1, current_shot: 0, salve_timer: salve });
    assert_eq!(e.update(100, 0), EnemyCommand::Shoot(ShotPattern::Fan, ShotSound::Laser04));
}

#[test]
fn boss_in_enemy_type_shoots_round_bullets() {
    let (shoot, salve) = salvo_timers();
    let mut e = EnemyType::Boss1(Boss1 { shoot_timer: shoot, nb_shot: 1, current_shot: 0, salve_timer: salve });
    assert_eq!(
        e.update(100, 0),
        EnemyCommand::Shoot(ShotPattern::Straight(BulletType::Round2), ShotSound::Laser03)
    );
}

#[test]
fn kamikaze_explodes_near_the_player() {
    let mut e = EnemyType::Kamikaze;
    assert_eq!(e.update(10, 60), EnemyCommand::Nothing);
    assert_eq!(e.update(10, 59), EnemyCommand::KamikazeExplode);
}

#[test]
fn follower_shoots_when_close_and_ready() {
    let mut e = EnemyType::FollowPlayer(Timer::running(100));
    assert_eq!(e.update(100, 1000), EnemyCommand::Nothing);
    // the timer ran out but the player was too far; now close
    assert_eq!(
        e.update(0, 999),
        EnemyCommand::Shoot(ShotPattern::Straight(BulletType::Round2), ShotSound::Laser04)
    );
    assert_eq!(e.update(50, 10), EnemyCommand::Nothing);
}

#[test]
fn satellite_launches_missiles() {
    let sat = Satellite::default();
    assert_eq!(sat.shoot_distance, 500);
    let mut e = EnemyType::Satellite(sat);
    assert_eq!(e.update(5_000_000, 499), EnemyCommand::LaunchMissile);
    assert_eq!(e.update(5_000_000, 500), EnemyCommand::Nothing);
}

#[test]
fn carrier_deploys_kamikazes() {
    let mut e = EnemyType::Carrier { time_between_deploy: Timer::running(10), nb_of_spaceships: 3 };
    assert_eq!(e.update(9, 0), EnemyCommand::Nothing);
    assert_eq!(e.update(1, 0), EnemyCommand::Deploy(3));
    assert_eq!(e.update(1, 0), EnemyCommand::Nothing);
}

#[test]
fn wanderer_and_mine_lander() {
    let mut w = EnemyType::Wanderer(Timer::running(10));
    assert_eq!(w.update(10, 0), EnemyCommand::Shoot(ShotPattern::Cross, ShotSound::Laser04));
    let mut m = EnemyType::MineLander(Timer::running(10));
    assert_eq!(m.update(5, 0), EnemyCommand::Nothing);
    assert_eq!(m.update(5, 0), EnemyCommand::DropMine);
}

#[test]
fn mine_arms_then_explodes() {
    let mut mine = EnemyType::Mine { trigger_distance: 100, explosion_timer: Timer::of_micros(50) };
    assert_eq!(mine.update(10, 100), EnemyCommand::Nothing);
    assert_eq!(mine.update(10, 99), EnemyCommand::Nothing);
    assert_eq!(mine.update(30, 1000), EnemyCommand::MineArmed { explode: false });
    assert_eq!(mine.update(20, 1000), EnemyCommand::MineArmed { explode: true });
}

#[test]
fn shot_sound_paths() {
    assert_eq!(ShotSound::Laser03.path(), "sounds/scifi_kit/Laser/Laser_03.wav");
    assert_eq!(ShotSound::Laser04.path(), "sounds/scifi_kit/Laser/Laser_04.wav");
}

#[test]
fn default_enemy() {
    let e = Enemy::default();
    assert_eq!(e.scrap_drop, (10, 50));
    assert_eq!(e.pickup_drop_percent, 0);
}

#[test]
fn route_cycles_through_points() {
    let mut r = Route { path: vec![(0, 0), (10, 0), (10, 10)], current: 0 };
    assert_eq!(r.get_current(), Some((0, 0)));
    r.go_to_next();
    r.go_to_next();
    assert_eq!(r.get_current(), Some((10, 10)));
    r.go_to_next();
    assert_eq!(r.get_current(), Some((0, 0)));
    let empty: Route<(i32, i32)> = Route { path: vec![], current: 0 };
    assert_eq!(empty.get_current(), None);
}

#[test]
fn shot_patterns_expand_to_bullets() {
    let b = |bullet, angle| ShotBullet { bullet, angle };
    assert_eq!(ShotPattern::Straight(BulletType::Round2).bullets(), vec![b(BulletType::Round2, 0)]);
    assert_eq!(
        ShotPattern::Fan.bullets(),
        vec![
            b(BulletType::Round1, 0),
            b(BulletType::Round1, 6),
            b(BulletType::Round1, 42),
            b(BulletType::Round1, 40),
            b(BulletType::Round1, 8)
        ]
    );
    assert_eq!(
        ShotPattern::Cross.bullets().iter().map(|x| x.angle).collect::<Vec<_>>(),
        vec![0, 12, 24, 36]
    );
    let ring = ShotPattern::Ring { shot: 3 }.bullets();
    assert_eq!(ring.len(), 12);
    assert!(ring.iter().all(|x| x.bullet == BulletType::Fast));
    assert_eq!(ring[0].angle, 3);
    assert_eq!(ring[11].angle, (44 + 3) % 48);
    assert_eq!(ShotPattern::Ring { shot: 50 }.bullets()[11].angle, (44 + 2) % 48);
}

#[test]
fn finished_salvo_of_the_largest_size_waits() {
    let (shoot, salve) = salvo_timers();
    let mut boss = Boss1 { shoot_timer: shoot, nb_shot: usize::MAX, current_shot: usize::MAX, salve_timer: salve };
    assert_eq!(boss.update(1000), None);
    assert_eq!(boss.current_shot, 0);
}
