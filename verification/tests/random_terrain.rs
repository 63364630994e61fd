use spacegame::bullet::BulletType;
use spacegame::entity::WorldPos;
use spacegame::perlin::{make_permutation, PermutationTable, Perlin};
use spacegame::pickup::Items;
use spacegame::player::{is_crit, should_shoot_missile};
use spacegame::random::{RandomGenerator, Seed};
use spacegame::terrain::{
    block_position, generate_terrain, partition_terrain, pick_field, pick_positions, TerrainBand, BLOCK_SIZE,
    NB_BLOCKS_X, NB_BLOCKS_Y,
};
use spacegame::window::WindowDim;

fn rng(seed: u8) -> RandomGenerator {
    RandomGenerator::new(Seed([seed; 32]))
}

#[test]
fn same_seed_same_draws() {
    let mut a = rng(9);
    let mut b = rng(9);
    let xs: Vec<Items> = (0..20).map(|_| Items::random(&mut a)).collect();
    let ys: Vec<Items> = (0..20).map(|_| Items::random(&mut b)).collect();
    assert_eq!(xs, ys);
    assert_eq!(make_permutation(&mut rng(2)), make_permutation(&mut rng(2)));
}

#[test]
fn draws_stay_in_range() {
    let mut r = rng(5);
    for _ in 0..100 {
        // a pick of [0, 100] is always at most 100 and never below 0
        assert!(is_crit(100, &mut r));
        assert!(!should_shoot_missile(0, &mut r));
    }
    let mut seen = std::collections::HashSet::new();
    for _ in 0..500 {
        seen.insert(format!("{:?}", Items::random(&mut r)));
    }
    assert_eq!(seen.len(), 7);
}

#[test]
fn block_positions_are_centred() {
    assert_eq!(block_position(0, 0), WorldPos { x: -40 * BLOCK_SIZE, y: -25 * BLOCK_SIZE });
    assert_eq!(block_position(40, 25), WorldPos { x: 0, y: 0 });
    assert_eq!(
        block_position(NB_BLOCKS_X - 1, NB_BLOCKS_Y - 1),
        WorldPos { x: 39 * BLOCK_SIZE, y: 24 * BLOCK_SIZE }
    );
}

fn bands() -> Vec<TerrainBand> {
    let n = (NB_BLOCKS_X * NB_BLOCKS_Y) as usize;
    (0..n)
        .map(|i| match i % 5 {
            0 => TerrainBand::FirstField,
            1 => TerrainBand::SecondField,
            _ => TerrainBand::Open,
        })
        .collect()
}

#[test]
fn terrain_partition_by_band() {
    let plan = partition_terrain(&bands());
    assert_eq!(plan.first_field.len(), 800);
    assert_eq!(plan.second_field.len(), 800);
    assert_eq!(plan.no_asteroid.len(), 2400);
    assert_eq!(plan.first_field[0], block_position(0, 0));
    assert_eq!(plan.second_field[0], block_position(0, 1));
    assert_eq!(plan.no_asteroid[0], block_position(0, 2));
}

#[test]
fn terrain_asteroids_per_field() {
    let (asteroids, free) = generate_terrain(&bands(), &mut rng(1), 10);
    assert_eq!(asteroids.len(), 20);
    assert_eq!(free.len(), 2400);
    let plan = partition_terrain(&bands());
    assert!(asteroids[..10].iter().all(|p| plan.first_field.contains(p)));
    assert!(asteroids[10..].iter().all(|p| plan.second_field.contains(p)));
    let few = pick_field(vec![WorldPos { x: 1, y: 1 }], &mut rng(2), 5);
    assert_eq!(few, vec![WorldPos { x: 1, y: 1 }]);
}

#[test]
fn pickups_take_distinct_free_places() {
    let free: Vec<WorldPos> = (0..10).map(|i| WorldPos { x: i, y: 0 }).collect();
    let picked = pick_positions(&mut rng(4), &free, 7);
    assert_eq!(picked.len(), 7);
    for (i, p) in picked.iter().enumerate() {
        assert!(free.contains(p));
        assert!(!picked[i + 1..].contains(p));
    }
    assert_eq!(pick_positions(&mut rng(4), &free, 50).len(), 10);
}

#[test]
fn permutation_table_is_doubled_permutation() {
    let p = make_permutation(&mut rng(6));
    assert_eq!(p.len(), 510);
    let mut first: Vec<u8> = p[..255].to_vec();
    // shuffled: not in increasing order
    assert_ne!(first, (0..255).collect::<Vec<u8>>());
    first.sort();
    assert_eq!(first, (0..255).collect::<Vec<u8>>());
    assert_eq!(&p[..255], &p[255..]);
    assert!(p.iter().all(|&v| v < 255));
}

#[test]
fn permutation_lookups() {
    let table = PermutationTable((0..=255u16).map(|i| (255 - i) as u8).collect());
    assert_eq!(table.get1(0), 255);
    assert_eq!(table.get1(256), 255);
    assert_eq!(table.get1(-1), 0);
    // get1(1) = 254; 254 ^ 3 = 253; table[253] = 2
    assert_eq!(table.get2(1, 3), 2);
}

#[test]
fn perlin_with_repeat_keeps_table() {
    let p = Perlin::new(&mut rng(8));
    let before = p.permutation().0.clone();
    let p = p.with_repeat(4);
    assert_eq!(p.permutation().0, before);
}

#[test]
fn window_resize() {
    let mut w = WindowDim::new(800, 600);
    w.resize(1024, 768);
    assert_eq!((w.width, w.height), (1024, 768));
}

#[test]
fn bullet_sprites() {
    assert_eq!(BulletType::Small.get_sprite_name(), "small_bullet.png");
    assert_eq!(BulletType::Fast.get_sprite_name(), "fast_bullet.png");
    assert_eq!(BulletType::Twin.get_sprite_name(), "twin_bullets.png");
    assert_eq!(BulletType::Round1.get_sprite_name(), "round_bullet.png");
    assert_eq!(BulletType::Round2.get_sprite_name(), "round_bullet_2.png");
    assert_eq!(BulletType::BigAss.get_sprite_name(), "big_ass_bullet.png");
}
