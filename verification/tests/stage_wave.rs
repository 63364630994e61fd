use spacegame::difficulty::pick_prefabs;
use spacegame::entity::{EntityId, WorldPos};
use spacegame::random::{RandomGenerator, Seed};
use spacegame::stage::{Stage, StageAction, StageDescription, MICROS_BETWEEN_STAGES, MICROS_BETWEEN_WAVES};
use spacegame::wave::{gen_wave, Wave, WaveDescription, ENEMY_PREFABS, ENEMY_STR_1, ENEMY_STR_2, ENEMY_STR_3};

fn rng() -> RandomGenerator {
    RandomGenerator::new(Seed([42; 32]))
}

fn wave(names: &[&str]) -> Wave {
    Wave::from_description(WaveDescription { to_instantiate: names.iter().map(|s| s.to_string()).collect() })
}

fn stage(waves: Vec<Wave>, next: Option<&str>, infinite: bool) -> Stage<u32> {
    Stage::new(
        Some(EntityId(100)),
        vec![EntityId(200), EntityId(201)],
        vec![EntityId(300)],
        vec![WorldPos { x: 0, y: 0 }, WorldPos { x: 48, y: 0 }],
        waves,
        if infinite { Some(0) } else { None },
        next.map(|s| s.to_string()),
        infinite,
    )
}

#[test]
fn wave_lifecycle() {
    let mut w = wave(&["base_enemy", "kamikaze"]);
    assert_eq!(w.to_instantiate().len(), 2);
    assert!(!w.is_finished());
    w.set_spawned(vec![EntityId(1), EntityId(2), EntityId(1)]);
    assert!(!w.is_finished());
    w.remove_enemy(EntityId(1));
    assert_eq!(w.enemies(), &vec![EntityId(2), EntityId(1)]);
    w.remove_enemy(EntityId(9));
    assert_eq!(w.enemies().len(), 2);
    w.remove_enemy(EntityId(2));
    w.remove_enemy(EntityId(1));
    assert!(w.is_finished());
}

#[test]
fn empty_wave_is_finished_once_spawned() {
    let mut w = wave(&[]);
    assert!(!w.is_finished());
    w.set_spawned(vec![]);
    assert!(w.is_finished());
}

#[test]
fn spawn_positions_avoid_asteroids() {
    let w = wave(&["a", "b", "c"]);
    let free = vec![WorldPos { x: 1, y: 2 }, WorldPos { x: 3, y: 4 }];
    let pos = w.spawn_positions(&mut rng(), &free);
    assert_eq!(pos.len(), 3);
    assert!(pos.iter().all(|p| free.contains(p)));
}

#[test]
fn generated_waves_have_distinct_prefabs() {
    let w = gen_wave(5, &mut rng());
    assert_eq!(w.to_instantiate.len(), 5);
    for (i, name) in w.to_instantiate.iter().enumerate() {
        assert!(ENEMY_PREFABS.contains(&name.as_str()));
        assert!(!w.to_instantiate[i + 1..].contains(name));
    }
    assert_eq!(gen_wave(40, &mut rng()).to_instantiate.len(), ENEMY_PREFABS.len());
    assert!(gen_wave(0, &mut rng()).to_instantiate.is_empty());
}

#[test]
fn infinite_prefabs_by_level() {
    let names = pick_prefabs(2, 1, 3, &mut rng());
    assert_eq!(names.len(), 6);
    assert!(names[..2].iter().all(|n| ENEMY_STR_1.contains(&n.as_str())));
    assert!(ENEMY_STR_2.contains(&names[2].as_str()));
    assert!(names[3..].iter().all(|n| ENEMY_STR_3.contains(&n.as_str())));
}

#[test]
fn infinite_stage_description() {
    let d = StageDescription::infinite();
    assert!(d.is_infinite);
    assert_eq!(d.nb_pickups, 7);
    assert!(d.waves.is_empty() && d.next_stage.is_none());
    assert_eq!(d.choose_background(&mut rng()), None);
    let d2 = StageDescription {
        waves: vec![],
        nb_pickups: 0,
        is_infinite: false,
        next_stage: None,
        backgrounds: vec!["bg1.png".to_string(), "bg2.png".to_string()],
    };
    let bg = d2.choose_background(&mut rng()).unwrap();
    assert!(d2.backgrounds.contains(&bg));
}

#[test]
fn stage_runs_waves_then_next_stage() {
    let mut s = stage(vec![wave(&["a"]), wave(&["b"])], Some("stage2"), false);
    assert_eq!(s.wave_number, 1);
    assert_eq!(s.current_wave(), None);
    assert_eq!(s.display(), Some("Next wave will start in 05".to_string()));
    assert_eq!(s.update(MICROS_BETWEEN_WAVES - 1), StageAction::Nothing);
    assert_eq!(s.display(), Some("Next wave will start in 00".to_string()));
    assert_eq!(s.update(1), StageAction::StartWave(0));
    assert_eq!(s.wave_number, 2);
    assert_eq!(s.current_wave(), Some(0));
    assert_eq!(s.display(), None);
    s.set_wave_spawned(0, vec![EntityId(1)]);
    assert_eq!(s.update(10), StageAction::Nothing);
    s.enemy_died(EntityId(1));
    // wave over: the next wave is prepared
    assert_eq!(s.update(10), StageAction::Nothing);
    assert_eq!(s.current_wave(), None);
    assert_eq!(s.update(MICROS_BETWEEN_WAVES), StageAction::StartWave(1));
    s.set_wave_spawned(1, vec![]);
    assert_eq!(s.update(0), StageAction::Nothing);
    // last wave over: the stage ends
    assert!(!s.is_finished());
    assert_eq!(s.update(1), StageAction::Nothing);
    assert!(s.is_finished());
    assert_eq!(s.display(), Some("Brace for next stage".to_string()));
    assert_eq!(s.update(MICROS_BETWEEN_STAGES - 2), StageAction::Nothing);
    assert_eq!(s.update(1), StageAction::NextStage("stage2".to_string()));
}

#[test]
fn last_stage_is_won() {
    let mut s = stage(vec![wave(&[])], None, false);
    assert_eq!(s.update(MICROS_BETWEEN_WAVES), StageAction::StartWave(0));
    s.set_wave_spawned(0, vec![]);
    assert_eq!(s.update(0), StageAction::Nothing);
    assert_eq!(s.update(0), StageAction::YouWin);
    assert_eq!(s.update(0), StageAction::YouWin);
}

#[test]
fn infinite_stage_asks_for_more_waves() {
    let mut s = stage(vec![wave(&[])], None, true);
    assert_eq!(s.update(MICROS_BETWEEN_WAVES), StageAction::StartWave(0));
    s.set_wave_spawned(0, vec![]);
    assert_eq!(s.update(0), StageAction::GenerateWaves);
    s.replace_waves(vec![wave(&["x"]), wave(&["y"])], 3);
    assert_eq!(s.wave_difficulty, Some(3));
    assert_eq!(s.update(MICROS_BETWEEN_WAVES), StageAction::StartWave(0));
    assert_eq!(s.wave_number, 3);
}

#[test]
fn despawn_lists_everything() {
    let mut s = stage(vec![wave(&["a"]), wave(&["b"])], None, false);
    s.set_wave_spawned(0, vec![EntityId(1), EntityId(2)]);
    s.set_wave_spawned(1, vec![EntityId(3)]);
    assert_eq!(
        s.entities_to_despawn(),
        vec![EntityId(1), EntityId(2), EntityId(3), EntityId(100), EntityId(200), EntityId(201), EntityId(300)]
    );
    let pos = s.wave_spawn_positions(1, &mut rng());
    assert_eq!(pos.len(), 1);
}

#[test]
fn enemy_died_outside_a_wave_changes_nothing() {
    let mut s = stage(vec![wave(&["a"])], None, false);
    s.set_wave_spawned(0, vec![EntityId(1)]);
    s.enemy_died(EntityId(1));
    assert_eq!(s.entities_to_despawn()[0], EntityId(1));
}
