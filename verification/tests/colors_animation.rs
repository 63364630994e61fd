use spacegame::animation::{Animation, AnimationController, AnimationSystem};
use spacegame::colors::{parse_rgba_hex, ColorError, RgbColor};
use spacegame::config::{default_dirty, GameEngineConfig, Trail};
use spacegame::entity::EntityId;
use spacegame::explosion::{explosion_animation, explosion_victims, EXPLOSION_ANIMATION, EXPLOSION_SOUND};

#[test]
fn rgb_color_new_and_default() {
    let c = RgbColor::new(212, 80, 121);
    assert_eq!((c.r, c.g, c.b), (212, 80, 121));
    assert_eq!(RgbColor::default(), RgbColor::new(0, 0, 0));
}

#[test]
fn parse_hex_lowercase_and_uppercase() {
    assert_eq!(parse_rgba_hex("ff8000c0"), Ok((255, 128, 0, 192)));
    assert_eq!(parse_rgba_hex("FF8000C0"), Ok((255, 128, 0, 192)));
    assert_eq!(parse_rgba_hex("0a0B0c0D"), Ok((10, 11, 12, 13)));
}

#[test]
fn parse_hex_accepts_plus_sign_in_a_channel() {
    // `u8::from_str_radix` reads "+f" as 15.
    assert_eq!(parse_rgba_hex("+f000000"), Ok((15, 0, 0, 0)));
}

#[test]
fn parse_hex_wrong_length() {
    assert_eq!(parse_rgba_hex("ff8000"), Err(ColorError::WrongLength));
    assert_eq!(parse_rgba_hex("ff8000c0ff"), Err(ColorError::WrongLength));
    assert_eq!(parse_rgba_hex(""), Err(ColorError::WrongLength));
    assert_eq!(
        ColorError::WrongLength.message(),
        "Hex code for RGBA should have a length of 8."
    );
}

#[test]
fn parse_hex_invalid_digit() {
    assert_eq!(parse_rgba_hex("ff80zzc0"), Err(ColorError::InvalidDigit));
    assert_eq!(parse_rgba_hex("-f000000"), Err(ColorError::InvalidDigit));
    assert_eq!(parse_rgba_hex("ff8000c "), Err(ColorError::InvalidDigit));
    assert_eq!(ColorError::InvalidDigit.message(), "invalid digit found in string");
}

#[test]
fn engine_config_defaults() {
    assert!(!GameEngineConfig::default().show_gizmos);
    assert!(default_dirty());
    let t = Trail { should_display: true };
    assert!(t.should_display);
}

fn anim(frames: &[(&str, usize)]) -> Animation {
    Animation::new(frames.iter().map(|(s, n)| (s.to_string(), *n)).collect())
}

#[test]
fn animation_last_frame() {
    let mut a = anim(&[("a", 0), ("b", 0)]);
    assert!(!a.last_frame());
    a.current_index = 1;
    assert!(a.last_frame());
}

#[test]
fn animation_advances_after_keyframe_length() {
    let mut a = anim(&[("a", 1), ("b", 0)]);
    // frame 1 of "a": 1 > 1 is false, stays on "a"
    assert_eq!(a.advance(), ("a".to_string(), false));
    assert_eq!((a.current_index, a.elapsed_frame), (0, 1));
    // frame 2 of "a": 2 > 1, next keyframe
    assert_eq!(a.advance(), ("a".to_string(), false));
    assert_eq!((a.current_index, a.elapsed_frame), (1, 0));
    // "b" lasts one frame and is the last one: wraps to the first keyframe.
    assert_eq!(a.advance(), ("b".to_string(), true));
    assert_eq!((a.current_index, a.elapsed_frame), (0, 0));
}

fn controller(delete_on_finished: bool, current: Option<&str>) -> AnimationController {
    AnimationController {
        animations: vec![
            ("idle".to_string(), anim(&[("idle.png", 5)])),
            ("boom".to_string(), anim(&[("b1.png", 0), ("b2.png", 0)])),
        ],
        current_animation: current.map(|s| s.to_string()),
        delete_on_finished,
    }
}

#[test]
fn controller_without_animation_shows_nothing() {
    let mut c = controller(true, None);
    let f = c.animate();
    assert_eq!(f.sprite, None);
    assert!(!f.delete);
    assert!(!f.missing);
}

#[test]
fn controller_with_unknown_animation_reports_it() {
    let mut c = controller(true, Some("walk"));
    let f = c.animate();
    assert_eq!(f.sprite, None);
    assert!(f.missing);
    assert!(!f.delete);
}

#[test]
fn controller_deletes_entity_after_last_keyframe() {
    let mut c = controller(true, Some("boom"));
    let f1 = c.animate();
    assert_eq!(f1.sprite.as_deref(), Some("b1.png"));
    assert!(!f1.delete);
    let f2 = c.animate();
    assert_eq!(f2.sprite.as_deref(), Some("b2.png"));
    assert!(f2.delete);
    // the idle animation was not touched
    assert_eq!(c.animations[0].1.elapsed_frame, 0);
}

#[test]
fn controller_loops_when_not_deleting() {
    let mut c = controller(false, Some("boom"));
    c.animate();
    let f = c.animate();
    assert!(!f.delete);
    assert_eq!(c.animations[1].1.current_index, 0);
}

#[test]
fn animation_system_plays_each_entity() {
    let mut sys = AnimationSystem;
    let mut entities = vec![
        (EntityId(1), controller(true, Some("idle"))),
        (EntityId(2), controller(true, None)),
    ];
    let frames = sys.animate(&mut entities);
    assert_eq!(frames.len(), 2);
    assert_eq!(frames[0].sprite.as_deref(), Some("idle.png"));
    assert_eq!(frames[1].sprite, None);
    assert_eq!(entities[0].0, EntityId(1));
    assert_eq!(entities[0].1.animations[0].1.elapsed_frame, 1);
}

#[test]
fn explosion_spares_the_exploding_entity() {
    let touched = vec![EntityId(3), EntityId(7), EntityId(3), EntityId(9)];
    assert_eq!(explosion_victims(EntityId(3), &touched), vec![EntityId(7), EntityId(9)]);
    assert_eq!(explosion_victims(EntityId(1), &touched), touched);
    assert_eq!(explosion_victims(EntityId(1), &vec![]), vec![]);
}

#[test]
fn explosion_animation_plays_once() {
    let c = explosion_animation();
    assert_eq!(EXPLOSION_SOUND, "sounds/explosion.wav");
    assert_eq!(c.current_animation.as_deref(), Some(EXPLOSION_ANIMATION));
    assert!(c.delete_on_finished);
    assert_eq!(c.animations.len(), 1);
    let keyframes = &c.animations[0].1.keyframes;
    assert_eq!(keyframes.len(), 15);
    assert_eq!(keyframes[0], ("explosion4/k2_0001.png".to_string(), 1));
    assert_eq!(keyframes[14], ("explosion4/k2_0015.png".to_string(), 10));
}
