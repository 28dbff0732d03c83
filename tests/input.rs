use godot_egui::input::{
    pixels_to_points, translate_event, Channel, GuiEvent, HostEvent, HostPoint, InputScale, Modifiers,
    Point, RawInputBuffer,
};
use godot_egui::keys::{Key, PointerButton, KEY_A, KEY_MASK_ALT, KEY_MASK_CTRL, KEY_MASK_SHIFT};

fn scale(origin_x: i32, origin_y: i32, ppp: u32) -> InputScale {
    InputScale { origin: HostPoint { x: origin_x, y: origin_y }, pixels_per_point: ppp, scroll_speed: 2000 }
}

#[test]
fn raw_channel_press_is_offset_by_origin() {
    let ev = HostEvent::MouseButton { pos: HostPoint { x: 12000, y: 8000 }, button_index: 1, pressed: true };
    let out = translate_event(&ev, Channel::Raw, &scale(2000, 2000, 100));
    assert_eq!(
        out,
        vec![GuiEvent::PointerButton {
            pos: Point { x: 10000, y: 6000 },
            button: PointerButton::Primary,
            pressed: true
        }]
    );
}

#[test]
fn gui_channel_ignores_origin() {
    let ev = HostEvent::MouseMotion { pos: HostPoint { x: 12000, y: 8000 } };
    let out = translate_event(&ev, Channel::Gui, &scale(2000, 2000, 100));
    assert_eq!(out, vec![GuiEvent::PointerMoved { pos: Point { x: 12000, y: 8000 } }]);
}

#[test]
fn positions_are_divided_by_the_render_scale() {
    let ev = HostEvent::MouseMotion { pos: HostPoint { x: 30000, y: 1000 } };
    let out = translate_event(&ev, Channel::Raw, &scale(0, 0, 200));
    assert_eq!(out, vec![GuiEvent::PointerMoved { pos: Point { x: 15000, y: 500 } }]);
}

#[test]
fn scaling_rounds_toward_zero() {
    assert_eq!(pixels_to_points(-150, 100), -150);
    assert_eq!(pixels_to_points(-150, 200), -75);
    assert_eq!(pixels_to_points(-1, 300), 0);
    assert_eq!(pixels_to_points(100, 300), 33);
    assert_eq!(pixels_to_points(-100, 300), -33);
    assert_eq!(pixels_to_points(0, 1), 0);
}

#[test]
fn wheel_notches_scroll_without_button_event() {
    let up = HostEvent::MouseButton { pos: HostPoint { x: 0, y: 0 }, button_index: 4, pressed: true };
    let down = HostEvent::MouseButton { pos: HostPoint { x: 0, y: 0 }, button_index: 5, pressed: true };
    let s = scale(0, 0, 100);
    assert_eq!(translate_event(&up, Channel::Gui, &s), vec![GuiEvent::Scroll { delta: Point { x: 0, y: 2000 } }]);
    assert_eq!(translate_event(&down, Channel::Gui, &s), vec![GuiEvent::Scroll { delta: Point { x: 0, y: -2000 } }]);
}

#[test]
fn released_wheel_and_unknown_button_give_nothing() {
    let s = scale(0, 0, 100);
    let up = HostEvent::MouseButton { pos: HostPoint { x: 0, y: 0 }, button_index: 4, pressed: false };
    let extra = HostEvent::MouseButton { pos: HostPoint { x: 0, y: 0 }, button_index: 8, pressed: true };
    assert!(translate_event(&up, Channel::Gui, &s).is_empty());
    assert!(translate_event(&extra, Channel::Gui, &s).is_empty());
}

#[test]
fn key_with_modifiers_and_text() {
    let ev = HostEvent::Key {
        scancode: KEY_A,
        modifier_mask: KEY_A | KEY_MASK_CTRL | KEY_MASK_SHIFT,
        pressed: true,
        unicode: 97,
    };
    let out = translate_event(&ev, Channel::Gui, &scale(0, 0, 100));
    assert_eq!(
        out,
        vec![
            GuiEvent::Key { key: Key::A, pressed: true, modifiers: Modifiers { alt: false, ctrl: true, shift: true } },
            GuiEvent::Text { utf8: 97 },
        ]
    );
}

#[test]
fn alt_modifier_is_read_from_mask() {
    let ev = HostEvent::Key { scancode: 16777234, modifier_mask: 16777234 | KEY_MASK_ALT, pressed: false, unicode: 0 };
    let out = translate_event(&ev, Channel::Gui, &scale(0, 0, 100));
    assert_eq!(
        out,
        vec![GuiEvent::Key {
            key: Key::ArrowDown,
            pressed: false,
            modifiers: Modifiers { alt: true, ctrl: false, shift: false }
        }]
    );
}

#[test]
fn multi_byte_characters_are_dropped() {
    // U+0141 would read as 'A' if only its low byte were kept.
    let ev = HostEvent::Key { scancode: 0, modifier_mask: 0, pressed: true, unicode: 0x141 };
    assert!(translate_event(&ev, Channel::Gui, &scale(0, 0, 100)).is_empty());
    let ev = HostEvent::Key { scancode: 0, modifier_mask: 0, pressed: true, unicode: 0x80 };
    assert!(translate_event(&ev, Channel::Gui, &scale(0, 0, 100)).is_empty());
    let ev = HostEvent::Key { scancode: 0, modifier_mask: 0, pressed: true, unicode: 0x7f };
    assert_eq!(translate_event(&ev, Channel::Gui, &scale(0, 0, 100)), vec![GuiEvent::Text { utf8: 0x7f }]);
}

#[test]
fn released_key_gives_no_text() {
    let ev = HostEvent::Key { scancode: KEY_A, modifier_mask: KEY_A, pressed: false, unicode: 97 };
    let out = translate_event(&ev, Channel::Gui, &scale(0, 0, 100));
    assert_eq!(
        out,
        vec![GuiEvent::Key { key: Key::A, pressed: false, modifiers: Modifiers { alt: false, ctrl: false, shift: false } }]
    );
}

#[test]
fn unknown_key_without_text_is_ignored() {
    let ev = HostEvent::Key { scancode: 16777244, modifier_mask: 16777244, pressed: true, unicode: 0 };
    assert!(translate_event(&ev, Channel::Gui, &scale(0, 0, 100)).is_empty());
}

#[test]
fn buffer_keeps_events_in_arrival_order() {
    let s = scale(100, 100, 100);
    let evs = vec![
        HostEvent::MouseMotion { pos: HostPoint { x: 200, y: 300 } },
        HostEvent::Key { scancode: 0, modifier_mask: 0, pressed: true, unicode: 0x20ac },
        HostEvent::MouseButton { pos: HostPoint { x: 400, y: 500 }, button_index: 2, pressed: false },
        HostEvent::Key { scancode: 0, modifier_mask: 0, pressed: true, unicode: 66 },
        HostEvent::MouseButton { pos: HostPoint { x: 0, y: 0 }, button_index: 5, pressed: true },
    ];
    let mut buffer = RawInputBuffer::new();
    for ev in &evs {
        buffer.push_host_event(ev, Channel::Raw, &s);
    }
    let taken = buffer.take();
    assert_eq!(
        taken,
        vec![
            GuiEvent::PointerMoved { pos: Point { x: 100, y: 200 } },
            GuiEvent::PointerButton { pos: Point { x: 300, y: 400 }, button: PointerButton::Secondary, pressed: false },
            GuiEvent::Text { utf8: 66 },
            GuiEvent::Scroll { delta: Point { x: 0, y: -2000 } },
        ]
    );
    assert!(buffer.take().is_empty());
}
