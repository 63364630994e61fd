use vstd::prelude::*;

verus! {

/// A key or button event of the window; cursor moves are handled by the window layer.
#[derive(Copy, Clone, Debug, PartialEq, Eq, Structural)]
pub enum InputEvent {
    MouseEvent(VirtualButton, VirtualAction),
    KeyEvent(VirtualKey, VirtualAction),
    Nothing,
}

#[derive(Copy, Clone, Debug, PartialEq, Eq, Structural)]
pub enum VirtualAction {
    Pressed,
    Release,
    Repeat,
}

/// Input keys, as the window layer reports them.
#[derive(Copy, Clone, Debug, PartialEq, Eq, Structural, Hash)]
pub enum VirtualKey {
    Space,
    Escape,
    Num0,
    Num1,
    Num2,
    Num3,
    Num4,
    Num5,
    Num6,
    Num7,
    Num8,
    Num9,
    A,
    B,
    C,
    D,
    E,
    F,
    G,
    H,
    I,
    J,
    K,
    L,
    M,
    N,
    O,
    P,
    Q,
    R,
    S,
    T,
    U,
    V,
    W,
    X,
    Y,
    Z,
    Enter,
    Right,
    Left,
    Down,
    Up,
    Unknown,
}

/// Mouse buttons.
#[derive(Copy, Clone, Debug, PartialEq, Eq, Structural, Hash)]
pub enum VirtualButton {
    Button1,
    Button2,
    Button3,
    Button4,
    Button5,
    Button6,
    Button7,
    Button8,
}

/// A key or a mouse button, as written in the input configuration.
#[derive(Copy, Clone, Debug, PartialEq, Eq, Structural)]
pub enum Input {
    Key(VirtualKey),
    Mouse(VirtualButton),
}

} // verus!
