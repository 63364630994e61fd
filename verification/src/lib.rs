//! Gameplay logic of the EverFight space shooter: inventory, timers, assets,
//! scenes, input mapping, waves and stages, enemy behaviour and collisions.
use vstd::prelude::*;

pub mod animation;
pub mod assets;
pub mod bullet;
pub mod collision;
pub mod colors;
pub mod config;
pub mod difficulty;
pub mod enemy;
pub mod entity;
pub mod explosion;
pub mod gameplay;
pub mod health;
pub mod input;
pub mod inventory;
pub mod level;
pub mod loaders;
pub mod perlin;
pub mod pickup;
pub mod player;
pub mod prefab;
pub mod random;
pub mod scene;
pub mod sprite;
pub mod stage;
pub mod terrain;
pub mod timer;
pub mod wave;
pub mod window;

verus! {

} // verus!
