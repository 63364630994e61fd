use crate::input::ser::{VirtualButton, VirtualKey};
use crate::input::{Axis, InputAction};
use vstd::prelude::*;

verus! {

/// What the player can do.
#[derive(Debug, Clone, Copy, PartialEq, Eq, Structural, Hash)]
pub enum Action {
    MoveLeft,
    MoveRight,
    MoveUp,
    MoveDown,
    Shoot,
    RotateLeft,
    RotateRight,
    Pickup,
    Boost,
}

/// Strafe: left is negative, right positive.
pub open spec fn x_axis_spec() -> Axis<Action> {
    Axis { left: Action::MoveLeft, right: Action::MoveRight }
}

/// Thrust: down is negative, up positive.
pub open spec fn y_axis_spec() -> Axis<Action> {
    Axis { left: Action::MoveDown, right: Action::MoveUp }
}

/// Rotation: left is negative, right positive.
pub open spec fn z_axis_spec() -> Axis<Action> {
    Axis { left: Action::RotateLeft, right: Action::RotateRight }
}

/// The strafe axis.
pub fn x_axis() -> (r: Axis<Action>)
    ensures
        r == x_axis_spec(),
{
    Axis { left: Action::MoveLeft, right: Action::MoveRight }
}

/// The thrust axis.
pub fn y_axis() -> (r: Axis<Action>)
    ensures
        r == y_axis_spec(),
{
    Axis { left: Action::MoveDown, right: Action::MoveUp }
}

/// The rotation axis.
pub fn z_axis() -> (r: Axis<Action>)
    ensures
        r == z_axis_spec(),
{
    Axis { left: Action::RotateLeft, right: Action::RotateRight }
}

/// Default keys: arrows and WASD move, space boosts, Q and E rotate, F picks up.
pub open spec fn default_key_bindings() -> Seq<(VirtualKey, Action)> {
    seq![
        (VirtualKey::Up, Action::MoveUp),
        (VirtualKey::W, Action::MoveUp),
        (VirtualKey::Down, Action::MoveDown),
        (VirtualKey::S, Action::MoveDown),
        (VirtualKey::Left, Action::MoveLeft),
        (VirtualKey::A, Action::MoveLeft),
        (VirtualKey::Right, Action::MoveRight),
        (VirtualKey::D, Action::MoveRight),
        (VirtualKey::Space, Action::Boost),
        (VirtualKey::Q, Action::RotateLeft),
        (VirtualKey::E, Action::RotateRight),
        (VirtualKey::F, Action::Pickup),
    ]
}

/// Keys bound to actions by default.
pub fn get_default_button_mapping() -> (r: Vec<(VirtualKey, Action)>)
    ensures
        r@ == default_key_bindings(),
{
    let mut m: Vec<(VirtualKey, Action)> = Vec::new();
    m.push((VirtualKey::Up, Action::MoveUp));
    m.push((VirtualKey::W, Action::MoveUp));
    m.push((VirtualKey::Down, Action::MoveDown));
    m.push((VirtualKey::S, Action::MoveDown));
    m.push((VirtualKey::Left, Action::MoveLeft));
    m.push((VirtualKey::A, Action::MoveLeft));
    m.push((VirtualKey::Right, Action::MoveRight));
    m.push((VirtualKey::D, Action::MoveRight));
    m.push((VirtualKey::Space, Action::Boost));
    m.push((VirtualKey::Q, Action::RotateLeft));
    m.push((VirtualKey::E, Action::RotateRight));
    m.push((VirtualKey::F, Action::Pickup));
    assert(m@ =~= default_key_bindings());
    m
}

/// Mouse buttons bound to actions by default: the first button shoots.
pub fn get_default_mouse_mapping() -> (r: Vec<(VirtualButton, Action)>)
    ensures
        r@ == seq![(VirtualButton::Button1, Action::Shoot)],
{
    let mut m: Vec<(VirtualButton, Action)> = Vec::new();
    m.push((VirtualButton::Button1, Action::Shoot));
    assert(m@ =~= seq![(VirtualButton::Button1, Action::Shoot)]);
    m
}

impl InputAction for Action {
    fn same_action(&self, other: &Self) -> (r: bool) {
        *self == *other
    }

    fn get_default_key_mapping() -> (r: Vec<(VirtualKey, Self)>)
        ensures
            r@ == default_key_bindings(),
    {
        get_default_button_mapping()
    }

    fn get_default_mouse_mapping() -> (r: Vec<(VirtualButton, Self)>)
        ensures
            r@ == seq![(VirtualButton::Button1, Action::Shoot)],
    {
        get_default_mouse_mapping()
    }
}

} // verus!
