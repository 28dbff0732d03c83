//! Fixed lookup tables between host input codes and the GUI library's
//! vocabulary of keys, pointer buttons and cursor shapes.

use vstd::prelude::*;

verus! {

/// Host scancode of the down arrow key.
pub const KEY_DOWN: i64 = 16777234;
/// Host scancode of the left arrow key.
pub const KEY_LEFT: i64 = 16777231;
/// Host scancode of the right arrow key.
pub const KEY_RIGHT: i64 = 16777233;
/// Host scancode of the up arrow key.
pub const KEY_UP: i64 = 16777232;
/// Host scancode of the escape key.
pub const KEY_ESCAPE: i64 = 16777217;
/// Host scancode of the tab key.
pub const KEY_TAB: i64 = 16777218;
/// Host scancode of the backspace key.
pub const KEY_BACKSPACE: i64 = 16777220;
/// Host scancode of the enter key.
pub const KEY_ENTER: i64 = 16777221;
/// Host scancode of the space bar.
pub const KEY_SPACE: i64 = 32;
/// Host scancode of the insert key.
pub const KEY_INSERT: i64 = 16777223;
/// Host scancode of the delete key.
pub const KEY_DELETE: i64 = 16777224;
/// Host scancode of the home key.
pub const KEY_HOME: i64 = 16777229;
/// Host scancode of the end key.
pub const KEY_END: i64 = 16777230;
/// Host scancode of the page-up key.
pub const KEY_PAGEUP: i64 = 16777235;
/// Host scancode of the page-down key.
pub const KEY_PAGEDOWN: i64 = 16777236;
/// Host scancode of the main-row digit 0; digits 1 to 9 follow it.
pub const KEY_0: i64 = 48;
/// Host scancode of the main-row digit 9.
pub const KEY_9: i64 = 57;
/// Host scancode of the keypad digit 0; keypad digits 1 to 9 follow it.
pub const KEY_KP_0: i64 = 16777350;
/// Host scancode of the keypad digit 9.
pub const KEY_KP_9: i64 = 16777359;
/// Host scancode of the letter A; letters B to Z follow it.
pub const KEY_A: i64 = 65;
/// Host scancode of the letter Z.
pub const KEY_Z: i64 = 90;

/// Host modifier bit: shift held.
pub const KEY_MASK_SHIFT: i64 = 33554432;
/// Host modifier bit: alt held.
pub const KEY_MASK_ALT: i64 = 67108864;
/// Host modifier bit: control held.
pub const KEY_MASK_CTRL: i64 = 268435456;

/// Host mouse button index of the left button.
pub const BUTTON_LEFT: i64 = 1;
/// Host mouse button index of the right button.
pub const BUTTON_RIGHT: i64 = 2;
/// Host mouse button index of the middle button.
pub const BUTTON_MIDDLE: i64 = 3;
/// Host mouse button index of a wheel notch upwards.
pub const BUTTON_WHEEL_UP: i64 = 4;
/// Host mouse button index of a wheel notch downwards.
pub const BUTTON_WHEEL_DOWN: i64 = 5;

/// The keys that the GUI library understands.
#[derive(Clone, Copy, Debug, PartialEq, Eq, Structural)]
pub enum Key {
    ArrowDown,
    ArrowLeft,
    ArrowRight,
    ArrowUp,
    Escape,
    Tab,
    Backspace,
    Enter,
    Space,
    Insert,
    Delete,
    Home,
    End,
    PageUp,
    PageDown,
    Num0,
    Num1,
    Num2,
    Num3,
    Num4,
    Num5,
    Num6,
    Num7,
    Num8,
    Num9,
    A,
    B,
    C,
    D,
    E,
    F,
    G,
    H,
    I,
    J,
    K,
    L,
    M,
    N,
    O,
    P,
    Q,
    R,
    S,
    T,
    U,
    V,
    W,
    X,
    Y,
    Z,
}

/// The pointer buttons that the GUI library understands.
#[derive(Clone, Copy, Debug, PartialEq, Eq, Structural)]
pub enum PointerButton {
    Primary,
    Secondary,
    Middle,
}

/// Cursor icons that the GUI library may request.
#[derive(Clone, Copy, Debug, PartialEq, Eq, Structural)]
pub enum CursorIcon {
    Default,
    Hidden,
    ContextMenu,
    Help,
    PointingHand,
    Progress,
    Wait,
    Cell,
    Crosshair,
    Text,
    VerticalText,
    Alias,
    Copy,
    Move,
    NoDrop,
    NotAllowed,
    Grab,
    Grabbing,
    AllScroll,
    ResizeHorizontal,
    ResizeNeSw,
    ResizeNwSe,
    ResizeVertical,
    ResizeEast,
    ResizeSouthEast,
    ResizeSouth,
    ResizeSouthWest,
    ResizeWest,
    ResizeNorthWest,
    ResizeNorth,
    ResizeNorthEast,
    ResizeColumn,
    ResizeRow,
    ZoomIn,
    ZoomOut,
}

/// Cursor shapes that the host can display.
#[derive(Clone, Copy, Debug, PartialEq, Eq, Structural)]
pub enum CursorShape {
    Arrow,
    Ibeam,
    PointingHand,
    Cross,
    Wait,
    Busy,
    Drag,
    CanDrop,
    Forbidden,
    Vsize,
    Hsize,
    Bdiagsize,
    Fdiagsize,
    Move,
    Vsplit,
    Hsplit,
    Help,
}

/// The digit key for `d` in `0..=9`.
pub open spec fn digit_key(d: int) -> Key {
    if d == 0 { Key::Num0 }
    else if d == 1 { Key::Num1 }
    else if d == 2 { Key::Num2 }
    else if d == 3 { Key::Num3 }
    else if d == 4 { Key::Num4 }
    else if d == 5 { Key::Num5 }
    else if d == 6 { Key::Num6 }
    else if d == 7 { Key::Num7 }
    else if d == 8 { Key::Num8 }
    else { Key::Num9 }
}

/// The letter key for `l` in `0..26`, counted from A.
pub open spec fn letter_key(l: int) -> Key {
    if l == 0 { Key::A }
    else if l == 1 { Key::B }
    else if l == 2 { Key::C }
    else if l == 3 { Key::D }
    else if l == 4 { Key::E }
    else if l == 5 { Key::F }
    else if l == 6 { Key::G }
    else if l == 7 { Key::H }
    else if l == 8 { Key::I }
    else if l == 9 { Key::J }
    else if l == 10 { Key::K }
    else if l == 11 { Key::L }
    else if l == 12 { Key::M }
    else if l == 13 { Key::N }
    else if l == 14 { Key::O }
    else if l == 15 { Key::P }
    else if l == 16 { Key::Q }
    else if l == 17 { Key::R }
    else if l == 18 { Key::S }
    else if l == 19 { Key::T }
    else if l == 20 { Key::U }
    else if l == 21 { Key::V }
    else if l == 22 { Key::W }
    else if l == 23 { Key::X }
    else if l == 24 { Key::Y }
    else { Key::Z }
}

/// The navigation and editing keys, by scancode.
pub open spec fn named_key(code: i64) -> Option<Key> {
    if code == KEY_DOWN { Some(Key::ArrowDown) }
    else if code == KEY_LEFT { Some(Key::ArrowLeft) }
    else if code == KEY_RIGHT { Some(Key::ArrowRight) }
    else if code == KEY_UP { Some(Key::ArrowUp) }
    else if code == KEY_ESCAPE { Some(Key::Escape) }
    else if code == KEY_TAB { Some(Key::Tab) }
    else if code == KEY_BACKSPACE { Some(Key::Backspace) }
    else if code == KEY_ENTER { Some(Key::Enter) }
    else if code == KEY_SPACE { Some(Key::Space) }
    else if code == KEY_INSERT { Some(Key::Insert) }
    else if code == KEY_DELETE { Some(Key::Delete) }
    else if code == KEY_HOME { Some(Key::Home) }
    else if code == KEY_END { Some(Key::End) }
    else if code == KEY_PAGEUP { Some(Key::PageUp) }
    else if code == KEY_PAGEDOWN { Some(Key::PageDown) }
    else { None }
}

/// The key that a host scancode stands for: letters by their offset from A,
/// main-row and keypad digits alike by their offset from 0, and the named
/// navigation keys; every other code stands for no key.
pub open spec fn key_of(code: i64) -> Option<Key> {
    if KEY_A <= code <= KEY_Z {
        Some(letter_key(code - KEY_A))
    } else if KEY_0 <= code <= KEY_9 {
        Some(digit_key(code - KEY_0))
    } else if KEY_KP_0 <= code <= KEY_KP_9 {
        Some(digit_key(code - KEY_KP_0))
    } else {
        named_key(code)
    }
}

/// Maps a host scancode to a key of the GUI library, if it stands for one.
pub fn scancode_to_egui(scancode: i64) -> (r: Option<Key>)
    ensures
        r == key_of(scancode),
{
    match scancode {
        KEY_DOWN => Some(Key::ArrowDown),
        KEY_LEFT => Some(Key::ArrowLeft),
        KEY_RIGHT => Some(Key::ArrowRight),
        KEY_UP => Some(Key::ArrowUp),
        KEY_ESCAPE => Some(Key::Escape),
        KEY_TAB => Some(Key::Tab),
        KEY_BACKSPACE => Some(Key::Backspace),
        KEY_ENTER => Some(Key::Enter),
        KEY_SPACE => Some(Key::Space),
        KEY_INSERT => Some(Key::Insert),
        KEY_DELETE => Some(Key::Delete),
        KEY_HOME => Some(Key::Home),
        KEY_END => Some(Key::End),
        KEY_PAGEUP => Some(Key::PageUp),
        KEY_PAGEDOWN => Some(Key::PageDown),
        48 | 16777350 => Some(Key::Num0),
        49 | 16777351 => Some(Key::Num1),
        50 | 16777352 => Some(Key::Num2),
        51 | 16777353 => Some(Key::Num3),
        52 | 16777354 => Some(Key::Num4),
        53 | 16777355 => Some(Key::Num5),
        54 | 16777356 => Some(Key::Num6),
        55 | 16777357 => Some(Key::Num7),
        56 | 16777358 => Some(Key::Num8),
        57 | 16777359 => Some(Key::Num9),
        65 => Some(Key::A),
        66 => Some(Key::B),
        67 => Some(Key::C),
        68 => Some(Key::D),
        69 => Some(Key::E),
        70 => Some(Key::F),
        71 => Some(Key::G),
        72 => Some(Key::H),
        73 => Some(Key::I),
        74 => Some(Key::J),
        75 => Some(Key::K),
        76 => Some(Key::L),
        77 => Some(Key::M),
        78 => Some(Key::N),
        79 => Some(Key::O),
        80 => Some(Key::P),
        81 => Some(Key::Q),
        82 => Some(Key::R),
        83 => Some(Key::S),
        84 => Some(Key::T),
        85 => Some(Key::U),
        86 => Some(Key::V),
        87 => Some(Key::W),
        88 => Some(Key::X),
        89 => Some(Key::Y),
        90 => Some(Key::Z),
        _ => None,
    }
}

/// The pointer button that a host mouse button index stands for.
pub open spec fn button_of(index: i64) -> Option<PointerButton> {
    if index == BUTTON_LEFT {
        Some(PointerButton::Primary)
    } else if index == BUTTON_RIGHT {
        Some(PointerButton::Secondary)
    } else if index == BUTTON_MIDDLE {
        Some(PointerButton::Middle)
    } else {
        None
    }
}

/// Maps a host mouse button index to a pointer button of the GUI library;
/// wheel notches and extra buttons map to none.
pub fn mouse_button_index_to_egui(button_index: i64) -> (r: Option<PointerButton>)
    ensures
        r == button_of(button_index),
{
    match button_index {
        BUTTON_LEFT => Some(PointerButton::Primary),
        BUTTON_RIGHT => Some(PointerButton::Secondary),
        BUTTON_MIDDLE => Some(PointerButton::Middle),
        _ => None,
    }
}

/// The host cursor shape shown for a requested cursor icon. Icons without a
/// host equivalent fall back to the arrow.
pub open spec fn shape_of(icon: CursorIcon) -> CursorShape {
    match icon {
        CursorIcon::Help => CursorShape::Help,
        CursorIcon::PointingHand => CursorShape::PointingHand,
        CursorIcon::Progress => CursorShape::Busy,
        CursorIcon::Wait => CursorShape::Wait,
        CursorIcon::Cell | CursorIcon::Crosshair => CursorShape::Cross,
        CursorIcon::Text | CursorIcon::VerticalText => CursorShape::Ibeam,
        CursorIcon::Move | CursorIcon::AllScroll => CursorShape::Move,
        CursorIcon::NoDrop | CursorIcon::NotAllowed => CursorShape::Forbidden,
        CursorIcon::Grab | CursorIcon::Grabbing => CursorShape::Drag,
        CursorIcon::ResizeHorizontal => CursorShape::Hsize,
        CursorIcon::ResizeNeSw => CursorShape::Bdiagsize,
        CursorIcon::ResizeNwSe => CursorShape::Fdiagsize,
        CursorIcon::ResizeVertical => CursorShape::Vsize,
        _ => CursorShape::Arrow,
    }
}

/// Converts a requested cursor icon to the host cursor shape.
pub fn mouse_cursor_egui_to_godot(cursor: CursorIcon) -> (r: CursorShape)
    ensures
        r == shape_of(cursor),
{
    match cursor {
        CursorIcon::Default => CursorShape::Arrow,
        CursorIcon::ContextMenu => CursorShape::Arrow,
        CursorIcon::Help => CursorShape::Help,
        CursorIcon::PointingHand => CursorShape::PointingHand,
        CursorIcon::Progress => CursorShape::Busy,
        CursorIcon::Wait => CursorShape::Wait,
        CursorIcon::Cell => CursorShape::Cross,
        CursorIcon::Crosshair => CursorShape::Cross,
        CursorIcon::Text => CursorShape::Ibeam,
        CursorIcon::VerticalText => CursorShape::Ibeam,
        CursorIcon::Move => CursorShape::Move,
        CursorIcon::NoDrop => CursorShape::Forbidden,
        CursorIcon::NotAllowed => CursorShape::Forbidden,
        CursorIcon::Grab => CursorShape::Drag,
        CursorIcon::Grabbing => CursorShape::Drag,
        CursorIcon::AllScroll => CursorShape::Move,
        CursorIcon::ResizeHorizontal => CursorShape::Hsize,
        CursorIcon::ResizeNeSw => CursorShape::Bdiagsize,
        CursorIcon::ResizeNwSe => CursorShape::Fdiagsize,
        CursorIcon::ResizeVertical => CursorShape::Vsize,
        _ => CursorShape::Arrow,
    }
}

} // verus!
