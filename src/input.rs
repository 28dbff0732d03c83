//! Translation of host input events into the GUI library's events, and the
//! buffer that accumulates them between two frames.

use vstd::prelude::*;
use crate::keys::{
    Key, PointerButton, key_of, button_of, scancode_to_egui, mouse_button_index_to_egui,
    BUTTON_WHEEL_UP, BUTTON_WHEEL_DOWN, KEY_MASK_SHIFT, KEY_MASK_ALT, KEY_MASK_CTRL,
};

verus! {

/// A host position, in hundredths of a physical pixel.
#[derive(Clone, Copy, Debug, PartialEq, Eq, Structural)]
pub struct HostPoint {
    pub x: i32,
    pub y: i32,
}

/// A position or a displacement in the GUI's logical space, in hundredths of
/// a point.
#[derive(Clone, Copy, Debug, PartialEq, Eq, Structural)]
pub struct Point {
    pub x: i64,
    pub y: i64,
}

/// The channel through which the host delivered an event.
#[derive(Clone, Copy, Debug, PartialEq, Eq, Structural)]
pub enum Channel {
    /// The filtered channel of the drawable: positions are already relative
    /// to the drawable.
    Gui,
    /// The global channel: positions are relative to the viewport.
    Raw,
}

/// An input event as the host reports it.
#[derive(Clone, Copy, Debug, PartialEq, Eq, Structural)]
pub enum HostEvent {
    MouseMotion { pos: HostPoint },
    MouseButton { pos: HostPoint, button_index: i64, pressed: bool },
    /// `modifier_mask` is the scancode combined with the host's modifier
    /// bits; `unicode` is the decoded code point, 0 when there is none.
    Key { scancode: i64, modifier_mask: i64, pressed: bool, unicode: i64 },
}

/// Modifier keys held during a key event.
#[derive(Clone, Copy, Debug, PartialEq, Eq, Structural)]
pub struct Modifiers {
    pub alt: bool,
    pub ctrl: bool,
    pub shift: bool,
}

/// An input event in the GUI library's vocabulary.
#[derive(Clone, Copy, Debug, PartialEq, Eq, Structural)]
pub enum GuiEvent {
    PointerMoved { pos: Point },
    PointerButton { pos: Point, button: PointerButton, pressed: bool },
    Scroll { delta: Point },
    Key { key: Key, pressed: bool, modifiers: Modifiers },
    /// Text typed as one single-byte UTF-8 sequence.
    Text { utf8: u8 },
}

/// How the bridge maps host positions and wheel notches into GUI space.
#[derive(Clone, Copy, Debug, PartialEq, Eq, Structural)]
pub struct InputScale {
    /// Global position of the drawable's origin, used for the raw channel.
    pub origin: HostPoint,
    /// Render scale in hundredths of a pixel per point; never 0.
    pub pixels_per_point: u32,
    /// Scroll distance of one wheel notch, in hundredths of a point.
    pub scroll_speed: i32,
}

/// `d` hundredths of a pixel in hundredths of a point, at `ppp` hundredths
/// of a pixel per point, rounded toward zero.
pub open spec fn to_points(d: int, ppp: int) -> int {
    if d >= 0 {
        d * 100 / ppp
    } else {
        -((-d) * 100 / ppp)
    }
}

/// The logical position of a host position delivered through `channel`.
pub open spec fn logical_pos(p: HostPoint, channel: Channel, scale: InputScale) -> Point {
    let (dx, dy) = match channel {
        Channel::Gui => (p.x as int, p.y as int),
        Channel::Raw => (p.x - scale.origin.x, p.y - scale.origin.y),
    };
    Point {
        x: to_points(dx, scale.pixels_per_point as int) as i64,
        y: to_points(dy, scale.pixels_per_point as int) as i64,
    }
}

/// The one-element sequence of `e`, or the empty one.
pub open spec fn seq_of(e: Option<GuiEvent>) -> Seq<GuiEvent> {
    match e {
        Some(x) => seq![x],
        None => Seq::empty(),
    }
}

/// The modifiers encoded in a host modifier mask.
pub open spec fn modifiers_of(mask: i64) -> Modifiers {
    Modifiers {
        alt: mask & KEY_MASK_ALT != 0,
        ctrl: mask & KEY_MASK_CTRL != 0,
        shift: mask & KEY_MASK_SHIFT != 0,
    }
}

/// Whether a code point is encoded in UTF-8 as one single byte.
pub open spec fn single_byte(c: i64) -> bool {
    0 < c < 128
}

/// The scroll event that a mouse button event stands for.
pub open spec fn scroll_of(button_index: i64, pressed: bool, speed: i32) -> Option<GuiEvent> {
    if pressed && button_index == BUTTON_WHEEL_UP {
        Some(GuiEvent::Scroll { delta: Point { x: 0, y: speed as i64 } })
    } else if pressed && button_index == BUTTON_WHEEL_DOWN {
        Some(GuiEvent::Scroll { delta: Point { x: 0, y: -speed as i64 } })
    } else {
        None
    }
}

/// The GUI events that one host event stands for, in order.
pub open spec fn translation(ev: HostEvent, channel: Channel, scale: InputScale) -> Seq<GuiEvent> {
    match ev {
        HostEvent::MouseMotion { pos } => seq![
            GuiEvent::PointerMoved { pos: logical_pos(pos, channel, scale) },
        ],
        HostEvent::MouseButton { pos, button_index, pressed } => {
            let press = match button_of(button_index) {
                Some(b) => Some(
                    GuiEvent::PointerButton { pos: logical_pos(pos, channel, scale), button: b, pressed },
                ),
                None => None,
            };
            seq_of(press) + seq_of(scroll_of(button_index, pressed, scale.scroll_speed))
        },
        HostEvent::Key { scancode, modifier_mask, pressed, unicode } => {
            let key = match key_of(scancode) {
                Some(k) => Some(
                    GuiEvent::Key { key: k, pressed, modifiers: modifiers_of(modifier_mask) },
                ),
                None => None,
            };
            let text = if pressed && single_byte(unicode) {
                Some(GuiEvent::Text { utf8: unicode as u8 })
            } else {
                None
            };
            seq_of(key) + seq_of(text)
        },
    }
}

/// The GUI events that a run of host events stands for: the translations
/// of each, one after another.
pub open spec fn translation_of_all(evs: Seq<HostEvent>, channel: Channel, scale: InputScale) -> Seq<GuiEvent>
    decreases evs.len(),
{
    if evs.len() == 0 {
        Seq::empty()
    } else {
        translation_of_all(evs.drop_last(), channel, scale) + translation(evs.last(), channel, scale)
    }
}

/// Translating two runs of events one after the other gives the
/// translations of the two runs, one after the other.
pub proof fn lemma_translation_of_concat(a: Seq<HostEvent>, b: Seq<HostEvent>, channel: Channel, scale: InputScale)
    ensures
        translation_of_all(a + b, channel, scale) == translation_of_all(a, channel, scale) + translation_of_all(b, channel, scale),
    decreases b.len(),
{
    if b.len() == 0 {
        assert(a + b =~= a);
    } else {
        lemma_translation_of_concat(a, b.drop_last(), channel, scale);
        assert((a + b).drop_last() =~= a + b.drop_last());
    }
}

/// What accumulates from a run of host events is the translation of each
/// event, in arrival order: each event's translation stands, whole, between
/// those of the events before it and those of the events after it. The
/// only text that is dropped is a character that is not a single UTF-8
/// byte: a pressed key with code point `c` other than 0 gives the text
/// event of `c` exactly when `c` is a single byte.
pub proof fn lemma_input_kept_in_arrival_order(evs: Seq<HostEvent>, channel: Channel, scale: InputScale)
    ensures
        forall|i: int|
            0 <= i < evs.len() ==> translation_of_all(evs, channel, scale) == translation_of_all(
                evs.take(i),
                channel,
                scale,
            ) + translation(#[trigger] evs[i], channel, scale) + translation_of_all(evs.skip(i + 1), channel, scale),
        forall|i: int|
            0 <= i < evs.len() && (#[trigger] evs[i] matches HostEvent::Key { pressed, unicode, .. }
                && pressed && unicode != 0) ==> (translation(evs[i], channel, scale).contains(
                GuiEvent::Text { utf8: evs[i]->unicode as u8 },
            ) <==> single_byte(evs[i]->unicode)),
{
    assert forall|i: int| 0 <= i < evs.len() implies translation_of_all(evs, channel, scale)
        == translation_of_all(evs.take(i), channel, scale) + translation(#[trigger] evs[i], channel, scale)
        + translation_of_all(evs.skip(i + 1), channel, scale) by {
        let head = evs.take(i + 1);
        assert(evs =~= head + evs.skip(i + 1));
        lemma_translation_of_concat(head, evs.skip(i + 1), channel, scale);
        assert(head.drop_last() =~= evs.take(i));
    }
    assert forall|i: int|
        0 <= i < evs.len() && (#[trigger] evs[i] matches HostEvent::Key { pressed, unicode, .. }
            && pressed && unicode != 0) implies (translation(evs[i], channel, scale).contains(
            GuiEvent::Text { utf8: evs[i]->unicode as u8 },
        ) <==> single_byte(evs[i]->unicode)) by {
        let t = translation(evs[i], channel, scale);
        let target = GuiEvent::Text { utf8: evs[i]->unicode as u8 };
        if single_byte(evs[i]->unicode) {
            assert(t[t.len() - 1] == target);
        } else {
            assert forall|j: int| 0 <= j < t.len() implies t[j] != target by {
                assert(!(t[j] is Text));
            }
        }
    }
}

/// Converts a length in hundredths of a pixel to hundredths of a point.
pub fn pixels_to_points(d: i64, pixels_per_point: u32) -> (r: i64)
    requires
        pixels_per_point > 0,
        -0x1_0000_0000 <= d <= 0x1_0000_0000,
    ensures
        r == to_points(d as int, pixels_per_point as int),
{
    let ppp = pixels_per_point as u64;
    if d >= 0 {
        let m = d as u64 * 100;
        assert(m / ppp <= m) by (nonlinear_arith)
            requires ppp >= 1;
        (m / ppp) as i64
    } else {
        let m = (-d) as u64 * 100;
        assert(m / ppp <= m) by (nonlinear_arith)
            requires ppp >= 1;
        -((m / ppp) as i64)
    }
}

/// The logical position of a host position delivered through `channel`.
pub fn to_logical(p: HostPoint, channel: Channel, scale: &InputScale) -> (r: Point)
    requires
        scale.pixels_per_point > 0,
    ensures
        r == logical_pos(p, channel, *scale),
{
    let (dx, dy) = match channel {
        Channel::Gui => (p.x as i64, p.y as i64),
        Channel::Raw => (p.x as i64 - scale.origin.x as i64, p.y as i64 - scale.origin.y as i64),
    };
    Point {
        x: pixels_to_points(dx, scale.pixels_per_point),
        y: pixels_to_points(dy, scale.pixels_per_point),
    }
}

/// Translates one host event into the GUI events it stands for, in order.
/// Unknown keys and buttons give no key or button event; a pressed wheel
/// notch gives a vertical scroll of `scroll_speed`; a typed character gives
/// a text event only when it is a single UTF-8 byte.
pub fn translate_event(ev: &HostEvent, channel: Channel, scale: &InputScale) -> (r: Vec<GuiEvent>)
    requires
        scale.pixels_per_point > 0,
    ensures
        r@ == translation(*ev, channel, *scale),
{
    let mut out: Vec<GuiEvent> = Vec::new();
    match *ev {
        HostEvent::MouseMotion { pos } => {
            out.push(GuiEvent::PointerMoved { pos: to_logical(pos, channel, scale) });
        },
        HostEvent::MouseButton { pos, button_index, pressed } => {
            if let Some(button) = mouse_button_index_to_egui(button_index) {
                out.push(
                    GuiEvent::PointerButton { pos: to_logical(pos, channel, scale), button, pressed },
                );
            }
            if pressed && button_index == BUTTON_WHEEL_UP {
                out.push(GuiEvent::Scroll { delta: Point { x: 0, y: scale.scroll_speed as i64 } });
            } else if pressed && button_index == BUTTON_WHEEL_DOWN {
                out.push(GuiEvent::Scroll { delta: Point { x: 0, y: -(scale.scroll_speed as i64) } });
            }
        },
        HostEvent::Key { scancode, modifier_mask, pressed, unicode } => {
            if let Some(key) = scancode_to_egui(scancode) {
                let modifiers = Modifiers {
                    alt: modifier_mask & KEY_MASK_ALT != 0,
                    ctrl: modifier_mask & KEY_MASK_CTRL != 0,
                    shift: modifier_mask & KEY_MASK_SHIFT != 0,
                };
                out.push(GuiEvent::Key { key, pressed, modifiers });
            }
            if pressed && 0 < unicode && unicode < 128 {
                out.push(GuiEvent::Text { utf8: unicode as u8 });
            }
        },
    }
    proof {
        assert(out@ =~= translation(*ev, channel, *scale));
    }
    out
}

/// The events accumulated since the last frame, in arrival order.
pub struct RawInputBuffer {
    events: Vec<GuiEvent>,
}

impl View for RawInputBuffer {
    type V = Seq<GuiEvent>;

    closed spec fn view(&self) -> Seq<GuiEvent> {
        self.events@
    }
}

impl RawInputBuffer {
    /// An empty buffer.
    pub fn new() -> (r: Self)
        ensures
            r@ == Seq::<GuiEvent>::empty(),
    {
        RawInputBuffer { events: Vec::new() }
    }

    /// Appends the translation of one host event.
    pub fn push_host_event(&mut self, ev: &HostEvent, channel: Channel, scale: &InputScale)
        requires
            scale.pixels_per_point > 0,
        ensures
            final(self)@ == old(self)@ + translation(*ev, channel, *scale),
    {
        let mut fresh = translate_event(ev, channel, scale);
        self.events.append(&mut fresh);
    }

    /// Hands out everything accumulated and leaves the buffer empty.
    pub fn take(&mut self) -> (r: Vec<GuiEvent>)
        ensures
            r@ == old(self)@,
            final(self)@ == Seq::<GuiEvent>::empty(),
    {
        let mut out: Vec<GuiEvent> = Vec::new();
        std::mem::swap(&mut out, &mut self.events);
        out
    }
}

} // verus!
