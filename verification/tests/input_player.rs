use spacegame::gameplay::{get_default_button_mapping, get_default_mouse_mapping, Action};
use spacegame::input::ser::{InputEvent, VirtualAction, VirtualButton, VirtualKey};
use spacegame::input::{Axis, Input, InputAction};
use spacegame::inventory::Inventory;
use spacegame::pickup::{Items, Pickup, PICKUP_COST};
use spacegame::player::{crit_for_pick, is_crit, missile_for_pick, should_shoot_missile, update_boost, Weapon};
use spacegame::random::{RandomGenerator, Seed};
use spacegame::timer::Timer;

fn input() -> Input<Action> {
    Input::new(get_default_button_mapping(), get_default_mouse_mapping())
}

fn key(k: VirtualKey, a: VirtualAction) -> InputEvent {
    InputEvent::KeyEvent(k, a)
}

#[test]
fn default_mappings() {
    let keys = get_default_button_mapping();
    assert_eq!(keys.len(), 12);
    assert_eq!(keys[0], (VirtualKey::Up, Action::MoveUp));
    assert_eq!(keys[11], (VirtualKey::F, Action::Pickup));
    assert_eq!(get_default_mouse_mapping(), vec![(VirtualButton::Button1, Action::Shoot)]);
    assert_eq!(Action::get_default_key_mapping(), keys);
}

#[test]
fn press_then_release() {
    let mut inp = input();
    inp.process_event(key(VirtualKey::W, VirtualAction::Pressed));
    assert!(inp.is_pressed(Action::MoveUp));
    assert!(inp.is_just_pressed(Action::MoveUp));
    inp.process_event(key(VirtualKey::W, VirtualAction::Release));
    assert!(!inp.is_pressed(Action::MoveUp));
    // still counts as pressed during this frame
    assert!(inp.is_just_pressed(Action::MoveUp));
    inp.prepare();
    assert!(!inp.is_just_pressed(Action::MoveUp));
}

#[test]
fn repeat_and_unbound_keys_change_nothing() {
    let mut inp = input();
    inp.process_event(key(VirtualKey::Z, VirtualAction::Pressed));
    inp.process_event(key(VirtualKey::Space, VirtualAction::Repeat));
    inp.process_event(InputEvent::Nothing);
    for a in [Action::MoveUp, Action::Boost, Action::Shoot] {
        assert!(!inp.is_pressed(a));
        assert!(!inp.is_just_pressed(a));
    }
}

#[test]
fn mouse_button_shoots() {
    let mut inp = input();
    inp.process_event(InputEvent::MouseEvent(VirtualButton::Button1, VirtualAction::Pressed));
    assert!(inp.is_pressed(Action::Shoot));
    inp.process_event(InputEvent::MouseEvent(VirtualButton::Button1, VirtualAction::Release));
    assert!(!inp.is_pressed(Action::Shoot));
}

#[test]
fn two_keys_for_one_action() {
    let mut inp = input();
    inp.process_event(key(VirtualKey::Up, VirtualAction::Pressed));
    inp.process_event(key(VirtualKey::W, VirtualAction::Pressed));
    inp.process_event(key(VirtualKey::W, VirtualAction::Release));
    // releasing either key releases the action
    assert!(!inp.is_pressed(Action::MoveUp));
}

#[test]
fn axis_values() {
    let mut inp = input();
    let axis = Axis { left: Action::MoveLeft, right: Action::MoveRight };
    assert_eq!(inp.get_axis(axis), 0);
    inp.process_event(key(VirtualKey::Left, VirtualAction::Pressed));
    assert_eq!(inp.get_axis(axis), -1);
    inp.process_event(key(VirtualKey::D, VirtualAction::Pressed));
    assert_eq!(inp.get_axis(axis), 1);
    inp.process_event(key(VirtualKey::Left, VirtualAction::Release));
    assert_eq!(inp.get_axis(axis), 1);
    inp.process_event(key(VirtualKey::D, VirtualAction::Release));
    assert_eq!(inp.get_axis(axis), 0);
}

#[test]
fn item_texts_and_rolls() {
    assert_eq!(Items::BaseDmg.info_text(), "Base Damage Up");
    assert_eq!(Items::SpeedBonus.info_text(), "Speed +50%");
    assert_eq!(Items::CritChance.info_text(), "Crit Chance +10%");
    assert_eq!(Items::CritDmg.info_text(), "Crit Damage +10%");
    assert_eq!(Items::ShieldUp.info_text(), "Shield Up");
    assert_eq!(Items::HealthUp.info_text(), "Health Up");
    assert_eq!(Items::Missile.info_text(), "Missile Spray");
    assert_eq!(Items::from_roll(0), Items::SpeedBonus);
    assert_eq!(Items::from_roll(3), Items::Missile);
    assert_eq!(Items::from_roll(5), Items::BaseDmg);
    assert_eq!(Items::from_roll(6), Items::HealthUp);
}

#[test]
fn random_item_is_one_of_the_items() {
    let mut rng = RandomGenerator::new(Seed([7; 32]));
    for _ in 0..50 {
        let it = Items::random(&mut rng);
        assert!((0..7).any(|n| Items::from_roll(n) == it));
    }
}

#[test]
fn pick_up_costs_scrap() {
    let pickup = Pickup { item: Items::ShieldUp };
    let mut inv = Inventory::default();
    inv.add_scratch(PICKUP_COST + 5);
    assert!(!pickup.try_pick_up(&mut inv, false, true));
    assert!(!pickup.try_pick_up(&mut inv, true, false));
    assert_eq!(inv.scratch(), 55);
    assert!(pickup.try_pick_up(&mut inv, true, true));
    assert_eq!(inv.scratch(), 5);
    // not enough scrap anymore
    assert!(!pickup.try_pick_up(&mut inv, true, true));
    assert_eq!(inv.scratch(), 5);
}

#[test]
fn crit_and_missile_thresholds() {
    assert!(crit_for_pick(10, 10));
    assert!(!crit_for_pick(11, 10));
    assert!(missile_for_pick(9, 10));
    assert!(!missile_for_pick(10, 10));
    let mut rng = RandomGenerator::new(Seed([1; 32]));
    assert!(is_crit(100, &mut rng));
    assert!(!should_shoot_missile(0, &mut rng));
    assert_eq!(Weapon::Simple, Weapon::Simple);
}

#[test]
fn boost_needs_the_cooldown() {
    let mut t = Timer::running(1_000);
    assert!(!update_boost(&mut t, 500, true));
    assert!(!update_boost(&mut t, 500, false));
    assert_eq!(t.elapsed(), 1_000);
    assert!(update_boost(&mut t, 0, true));
    assert_eq!(t.elapsed(), 0);
}

#[test]
fn a_key_bound_twice_keeps_its_last_binding() {
    let mut inp: Input<Action> = Input::new(
        vec![(VirtualKey::Z, Action::Shoot), (VirtualKey::Z, Action::Boost)],
        vec![],
    );
    inp.process_event(key(VirtualKey::Z, VirtualAction::Pressed));
    assert!(inp.is_pressed(Action::Boost));
    assert!(!inp.is_pressed(Action::Shoot));
}
