use spacegame::collision::CollisionLayer;
use spacegame::enemy::{EnemyCommand, EnemyType, MovementKind};
use spacegame::entity::{EntityId, WorldPos};
use spacegame::gameplay::{get_default_button_mapping, get_default_mouse_mapping, x_axis, y_axis, z_axis, Action};
use spacegame::health::{death_events, hull_takes_points, resolve_hit, DeathEvent, Hittable, ShieldRecharge};
use spacegame::input::ser::{InputEvent, VirtualAction, VirtualButton, VirtualKey};
use spacegame::input::Input;
use spacegame::level::{LevelInstruction, LevelSystem};
use spacegame::pickup::Items;
use spacegame::player::{player_frame, shot_for_picks, PlayerShot, PlayerStats, PICKUP_SOUND, PLAYER_SHOT_SOUND};
use spacegame::prefab::{gen_carrier, gen_mine, gen_player, gen_satellite, gen_spammer, EnemyPrefabKind};
use spacegame::random::{RandomGenerator, Seed};
use spacegame::timer::Timer;
use spacegame::wave::ENEMY_PREFABS;

#[test]
fn every_wave_prefab_has_a_generator() {
    for name in ENEMY_PREFABS.iter() {
        let kind = EnemyPrefabKind::from_name(&name.to_string()).expect("generated prefab");
        assert_eq!(kind.name(), *name);
        let data = kind.generate();
        assert!(!data.sprite.is_empty());
    }
    assert_eq!(EnemyPrefabKind::from_name(&"player".to_string()), None);
}

#[test]
fn mine_prefab() {
    let m = gen_mine();
    assert_eq!(m.sprite, "explosion-05.png");
    assert_eq!(m.collision_layer.bits, CollisionLayer::MINE);
    assert_eq!(m.enemy.scrap_drop, (0, 0));
    assert_eq!(m.enemy.movement, MovementKind::Nothing);
    match m.enemy.enemy_type {
        EnemyType::Mine { trigger_distance, explosion_timer } => {
            assert_eq!(trigger_distance, 200);
            assert_eq!(explosion_timer.deadline(), 2_000_000);
            assert!(!explosion_timer.is_enabled());
        }
        _ => panic!("a mine"),
    }
    let anim = m.animation.expect("the mine is animated");
    assert_eq!(anim.animations[0].0, "boum");
    assert_eq!(anim.animations[0].1.keyframes.len(), 11);
    assert!(anim.current_animation.is_none());
    assert_eq!(m.invulnerability.deadline(), 500_000);
}

#[test]
fn other_prefabs() {
    let c = gen_carrier();
    assert_eq!(c.sprite, "large_red_01.png");
    assert_eq!(c.enemy.pickup_drop_percent, 70);
    assert!(matches!(c.enemy.enemy_type, EnemyType::Carrier { nb_of_spaceships: 4, .. }));
    assert!(c.animation.is_none());
    let s = gen_spammer();
    assert_eq!(s.invulnerability.deadline(), 1_000_000);
    let mut sat = gen_satellite().enemy.enemy_type;
    assert_eq!(sat.update(3_000_000, 799), EnemyCommand::LaunchMissile);
    assert_eq!(EnemyPrefabKind::LastBoss.generate().enemy.scrap_drop, (20, 100));
    assert_eq!(EnemyPrefabKind::Boss1.generate().sprite, "large_grey_02.png");
}

#[test]
fn deaths() {
    assert_eq!(death_events(EntityId(4), true, None), vec![DeathEvent::GameOver]);
    assert_eq!(
        death_events(EntityId(5), false, Some((10, 40))),
        vec![DeathEvent::Delete(EntityId(5)), DeathEvent::EnemyDied(EntityId(5), 10, 40)]
    );
    assert_eq!(death_events(EntityId(6), false, None), vec![DeathEvent::Delete(EntityId(6))]);
}

#[test]
fn invulnerability_after_a_hit() {
    let mut h = Hittable::new(Timer::of_micros(500));
    assert!(h.hittable);
    assert!(!h.update(1_000));
    h.start_invulnerability();
    assert!(!h.hittable);
    assert!(h.invulnerability_timer.is_enabled());
    assert!(!h.update(499));
    assert!(!h.hittable);
    assert!(h.update(1));
    assert!(h.hittable);
    assert!(!h.invulnerability_timer.is_enabled());
    assert_eq!(h.invulnerability_timer.elapsed(), 0);
}

#[test]
fn hit_that_empties_the_hull_kills() {
    let mut hull = Some(Hittable::new(Timer::of_micros(500)));
    assert!(hull_takes_points(&hull, true));
    let r = resolve_hit(&mut hull, true, true, EntityId(7), false, Some((10, 40)));
    assert_eq!(r.events, vec![DeathEvent::Delete(EntityId(7)), DeathEvent::EnemyDied(EntityId(7), 10, 40)]);
    assert!(r.explosion);
    assert!(!r.blink);
    assert!(hull.unwrap().hittable);
}

#[test]
fn player_killed_by_a_hit_ends_the_game() {
    let mut hull = Some(Hittable::new(Timer::of_micros(500)));
    let r = resolve_hit(&mut hull, true, true, EntityId(1), true, None);
    assert_eq!(r.events, vec![DeathEvent::GameOver]);
    assert!(r.explosion);
}

#[test]
fn surviving_a_hit_makes_the_hull_invulnerable() {
    let mut hull = Some(Hittable::new(Timer::with_elapsed(500, 30, false)));
    let r = resolve_hit(&mut hull, true, false, EntityId(7), false, Some((10, 40)));
    assert!(r.events.is_empty());
    assert!(!r.explosion);
    assert!(r.blink);
    let h = hull.unwrap();
    assert!(!h.hittable);
    assert!(h.invulnerability_timer.is_enabled());
    assert_eq!(h.invulnerability_timer.elapsed(), 0);
    // a second hit during the invulnerability is ignored
    assert!(!hull_takes_points(&hull, true));
    let again = resolve_hit(&mut hull, true, true, EntityId(7), false, Some((10, 40)));
    assert!(again.events.is_empty());
    assert!(!again.explosion && !again.blink);
    let after = hull.unwrap();
    assert!(!after.hittable);
    assert_eq!(after.invulnerability_timer.elapsed(), h.invulnerability_timer.elapsed());
    assert!(after.invulnerability_timer.is_enabled());
}

#[test]
fn entity_without_hull_dies_of_any_hit() {
    let mut hull: Option<Hittable> = None;
    assert!(!hull_takes_points(&hull, true));
    let r = resolve_hit(&mut hull, true, false, EntityId(3), false, None);
    assert_eq!(r.events, vec![DeathEvent::Delete(EntityId(3))]);
    assert!(r.explosion);
    assert!(hull.is_none());
}

#[test]
fn hit_the_shield_absorbed_does_nothing() {
    let mut hull = Some(Hittable::new(Timer::of_micros(500)));
    assert!(!hull_takes_points(&hull, false));
    let r = resolve_hit(&mut hull, false, true, EntityId(3), false, None);
    assert!(r.events.is_empty());
    assert!(!r.explosion && !r.blink);
    assert!(hull.unwrap().hittable);
    let mut none: Option<Hittable> = None;
    assert!(resolve_hit(&mut none, false, false, EntityId(3), true, None).events.is_empty());
}

#[test]
fn shield_recharges_after_the_countdown() {
    let mut s = ShieldRecharge { timer_until_replenish: Timer::of_micros(5) };
    // the countdown starts with the first hit
    assert!(!s.update(10));
    s.on_hit();
    assert!(!s.update(4));
    assert!(s.update(1));
    assert!(s.update(1));
    s.on_hit();
    assert!(!s.update(4));
    assert!(s.timer_until_replenish.is_enabled());
}

fn spawn_multiple(nb: usize, every: u64) -> LevelInstruction {
    LevelInstruction::SpawnMultiple {
        health: 3,
        nb,
        spawned: 0,
        time_between: every,
        elapsed: 0,
        pos: WorldPos { x: 1, y: 2 },
        enemy_type: EnemyType::Kamikaze,
    }
}

#[test]
fn level_instructions_in_order() {
    let mut level = LevelSystem::new(vec![
        LevelInstruction::Wait { to_wait: 100, elapsed: 0 },
        spawn_multiple(2, 50),
        LevelInstruction::SpawnEnemy { health: 9, pos: WorldPos { x: 0, y: 0 }, enemy_type: EnemyType::Kamikaze },
    ]);
    assert!(level.check_update());
    assert!(level.update(60).is_empty());
    assert!(level.update(40).is_empty());
    // the multiple spawn starts with one enemy
    let s = level.update(10);
    assert_eq!(s.len(), 1);
    assert_eq!(s[0].health, 3);
    assert_eq!(s[0].pos, WorldPos { x: 1, y: 2 });
    // the second one after 50 microseconds
    assert!(level.update(30).is_empty());
    assert_eq!(level.update(20).len(), 1);
    // then the single spawn
    let s = level.update(0);
    assert_eq!(s.len(), 1);
    assert_eq!(s[0].health, 9);
    // nothing after the last instruction
    assert!(level.update(1_000).is_empty());
}

#[test]
fn level_instruction_steps() {
    let mut w = LevelInstruction::Wait { to_wait: 10, elapsed: 0 };
    assert!(!w.move_next());
    assert!(w.init().is_none());
    assert!(w.update(10).is_none());
    assert!(w.move_next());
    let mut m = spawn_multiple(1, 5);
    assert!(m.init().is_some());
    assert!(m.move_next());
}

#[test]
fn player_axes_and_shots() {
    assert_eq!((x_axis().left, x_axis().right), (Action::MoveLeft, Action::MoveRight));
    assert_eq!((y_axis().left, y_axis().right), (Action::MoveDown, Action::MoveUp));
    assert_eq!((z_axis().left, z_axis().right), (Action::RotateLeft, Action::RotateRight));
    let stats = PlayerStats { crit_percent: 50, missile_percent: 10, boost_timer: Timer::of_micros(0) };
    assert_eq!(shot_for_picks(50, 10, &stats), PlayerShot { is_crit: true, missile: false });
    assert_eq!(shot_for_picks(51, 9, &stats), PlayerShot { is_crit: false, missile: true });
    assert_eq!(PLAYER_SHOT_SOUND, "sounds/scifi_kit/Laser/Laser_09.wav");
    assert_eq!(PICKUP_SOUND, "sounds/powerUp2.mp3");
}

#[test]
fn player_frame_reads_the_input() {
    let mut input = Input::new(get_default_button_mapping(), get_default_mouse_mapping());
    let mut stats = PlayerStats::default();
    let mut random = RandomGenerator::new(Seed([3; 32]));
    let f = player_frame(&input, &mut stats, 16_000, &mut random);
    assert_eq!((f.lateral, f.forward, f.rotation), (0, 0, 0));
    assert!(!f.show_trail && !f.boost && f.shot.is_none());
    input.prepare();
    input.process_event(InputEvent::KeyEvent(VirtualKey::W, VirtualAction::Pressed));
    input.process_event(InputEvent::KeyEvent(VirtualKey::Q, VirtualAction::Pressed));
    input.process_event(InputEvent::KeyEvent(VirtualKey::Space, VirtualAction::Pressed));
    input.process_event(InputEvent::MouseEvent(VirtualButton::Button1, VirtualAction::Pressed));
    // the boost cooldown (one second) is not over yet
    let f = player_frame(&input, &mut stats, 16_000, &mut random);
    assert_eq!((f.lateral, f.forward, f.rotation), (0, 1, -1));
    assert!(f.show_trail);
    assert!(!f.boost);
    assert!(f.shot.is_some());
    let f = player_frame(&input, &mut stats, 1_000_000, &mut random);
    assert!(f.boost);
    assert_eq!(stats.boost_timer.elapsed(), 0);
}

#[test]
fn items_raise_percentages() {
    let mut stats = PlayerStats::default();
    Items::CritChance.apply_to_stats(&mut stats);
    assert_eq!(stats.crit_percent, 15);
    Items::Missile.apply_to_stats(&mut stats);
    Items::Missile.apply_to_stats(&mut stats);
    assert_eq!(stats.missile_percent, 20);
    Items::HealthUp.apply_to_stats(&mut stats);
    assert_eq!((stats.crit_percent, stats.missile_percent), (15, 20));
}

#[test]
fn player_prefab() {
    let p = gen_player();
    assert_eq!(p.sprite, "blue_05.png");
    assert_eq!(p.collision_layer.bits, CollisionLayer::PLAYER);
    assert_eq!(p.stats.crit_percent, 50);
    assert_eq!(p.stats.boost_timer.deadline(), 1_000_000);
    assert_eq!(p.invulnerability.deadline(), 500_000);
}
