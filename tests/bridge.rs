use godot_egui::bridge::{BridgeError, FrameBridge, Primitive, RenderCommand};
use godot_egui::input::{Channel, GuiEvent, HostEvent, HostPoint, Point};
use godot_egui::keys::{CursorIcon, CursorShape, PointerButton};
use godot_egui::texture::{Image, ImageDelta, Texel, TextureId};

fn solid(width: usize, height: usize, v: u8) -> Image {
    Image { width, height, pixels: vec![Texel { r: v, g: v, b: v, a: v }; width * height] }
}

fn prim(texture: TextureId, vertex_count: usize) -> Primitive {
    Primitive { texture, vertex_count }
}

fn frame(bridge: &mut FrameBridge, set: Vec<(TextureId, ImageDelta)>, free: Vec<TextureId>, prims: Vec<Primitive>, first: u64) -> Vec<RenderCommand> {
    let k = bridge.slots_to_create(true, prims.len());
    let fresh: Vec<u64> = (0..k as u64).map(|i| first + i).collect();
    assert!(bridge.can_apply(&set));
    bridge.render(true, set, &free, &prims, fresh)
}

#[test]
fn new_bridge_defaults() {
    let bridge = FrameBridge::new();
    assert_eq!(bridge.pixels_per_point(), 100);
    assert_eq!(bridge.scroll_speed(), 2000);
    assert!(!bridge.reactive_update());
    assert!(!bridge.mouse_was_captured());
    assert_eq!(bridge.cursor_icon(), CursorIcon::Default);
    assert_eq!(bridge.slot_count(), 0);
}

#[test]
fn zero_render_scale_is_refused() {
    let mut bridge = FrameBridge::new();
    assert_eq!(bridge.set_pixels_per_point(0), Err(BridgeError::ZeroPixelsPerPoint));
    assert_eq!(bridge.pixels_per_point(), 100);
    assert_eq!(bridge.set_pixels_per_point(250), Ok(()));
    assert_eq!(bridge.pixels_per_point(), 250);
}

#[test]
fn begin_frame_takes_pending_input() {
    let mut bridge = FrameBridge::new();
    bridge.set_pixels_per_point(200).unwrap();
    let origin = HostPoint { x: 2000, y: 2000 };
    bridge.handle_input(&HostEvent::MouseMotion { pos: HostPoint { x: 6000, y: 4000 } }, Channel::Raw, origin);
    bridge.handle_input(
        &HostEvent::MouseButton { pos: HostPoint { x: 6000, y: 4000 }, button_index: 1, pressed: true },
        Channel::Raw,
        origin,
    );
    let input = bridge.begin_frame(64000, 48000);
    assert_eq!(
        input.events,
        vec![
            GuiEvent::PointerMoved { pos: Point { x: 2000, y: 1000 } },
            GuiEvent::PointerButton { pos: Point { x: 2000, y: 1000 }, button: PointerButton::Primary, pressed: true },
        ]
    );
    assert_eq!(input.screen_size, Point { x: 32000, y: 24000 });
    assert!(input.force_repaint);
    assert!(bridge.begin_frame(64000, 48000).events.is_empty());
    bridge.set_reactive_update(true);
    assert!(!bridge.begin_frame(100, 100).force_repaint);
}

#[test]
fn missed_frames_batch_input() {
    let mut bridge = FrameBridge::new();
    let origin = HostPoint { x: 0, y: 0 };
    bridge.handle_input(&HostEvent::MouseMotion { pos: HostPoint { x: 1, y: 1 } }, Channel::Gui, origin);
    bridge.handle_input(&HostEvent::MouseMotion { pos: HostPoint { x: 2, y: 2 } }, Channel::Gui, origin);
    let input = bridge.begin_frame(0, 0);
    assert_eq!(input.events.len(), 2);
}

#[test]
fn cursor_shape_is_set_only_on_change() {
    let mut bridge = FrameBridge::new();
    assert_eq!(bridge.end_frame(CursorIcon::Default, false), None);
    assert_eq!(bridge.end_frame(CursorIcon::Text, true), Some(CursorShape::Ibeam));
    assert!(bridge.mouse_was_captured());
    assert_eq!(bridge.end_frame(CursorIcon::Text, false), None);
    assert!(!bridge.mouse_was_captured());
    assert_eq!(bridge.end_frame(CursorIcon::PointingHand, false), Some(CursorShape::PointingHand));
}

#[test]
fn idle_frames_submit_nothing() {
    let mut bridge = FrameBridge::new();
    let font = TextureId::Managed(0);
    frame(&mut bridge, vec![(font, ImageDelta { image: solid(2, 2, 1), pos: None })], vec![], vec![prim(font, 3)], 10);
    for _ in 0..2 {
        let prims = vec![prim(font, 3), prim(font, 3)];
        assert_eq!(bridge.slots_to_create(false, prims.len()), 0);
        let cmds = bridge.render(false, vec![], &vec![], &prims, vec![]);
        assert!(cmds.is_empty());
        assert_eq!(bridge.slot_count(), 1);
    }
}

#[test]
fn full_frame_commands_in_order() {
    let mut bridge = FrameBridge::new();
    let font = TextureId::Managed(0);
    let gone = TextureId::Managed(5);
    let host = TextureId::User(77);
    bridge.register_texture(host);
    let cmds = frame(
        &mut bridge,
        vec![
            (font, ImageDelta { image: solid(2, 2, 1), pos: None }),
            (gone, ImageDelta { image: solid(1, 1, 2), pos: None }),
        ],
        vec![gone],
        vec![prim(font, 6), prim(host, 4), prim(font, 0), prim(TextureId::Managed(9), 3)],
        20,
    );
    assert_eq!(
        cmds,
        vec![
            RenderCommand::UploadTexture { id: font, full: true },
            RenderCommand::UploadTexture { id: gone, full: true },
            RenderCommand::AttachSlot { slot: 20, draw_index: 0 },
            RenderCommand::AttachSlot { slot: 21, draw_index: 1 },
            RenderCommand::AttachSlot { slot: 22, draw_index: 2 },
            RenderCommand::AttachSlot { slot: 23, draw_index: 3 },
            RenderCommand::DrawMesh { slot: 20, primitive: 0, texture: font },
            RenderCommand::DrawMesh { slot: 21, primitive: 1, texture: host },
            RenderCommand::ClearSlot { slot: 22 },
            RenderCommand::MissingTexture { primitive: 3, texture: TextureId::Managed(9) },
            RenderCommand::FreeTexture { id: gone },
        ]
    );
    assert!(!bridge.has_texture(gone));
    assert!(bridge.has_texture(font));
    assert_eq!(bridge.slot_count(), 4);
}

#[test]
fn texture_freed_in_a_frame_is_still_drawn_in_it() {
    let mut bridge = FrameBridge::new();
    let t = TextureId::Managed(3);
    frame(&mut bridge, vec![(t, ImageDelta { image: solid(1, 1, 1), pos: None })], vec![], vec![], 1);
    let cmds = frame(&mut bridge, vec![], vec![t], vec![prim(t, 3)], 1);
    assert_eq!(
        cmds,
        vec![
            RenderCommand::AttachSlot { slot: 1, draw_index: 0 },
            RenderCommand::DrawMesh { slot: 1, primitive: 0, texture: t },
            RenderCommand::FreeTexture { id: t },
        ]
    );
    assert!(!bridge.has_texture(t));
}

#[test]
fn shrinking_frame_frees_surplus_slots_last_first() {
    let mut bridge = FrameBridge::new();
    let t = TextureId::Managed(0);
    frame(&mut bridge, vec![(t, ImageDelta { image: solid(1, 1, 1), pos: None })], vec![], vec![prim(t, 3); 5], 30);
    let cmds = frame(&mut bridge, vec![], vec![], vec![prim(t, 3); 2], 99);
    assert_eq!(
        cmds,
        vec![
            RenderCommand::FreeSlot { slot: 34 },
            RenderCommand::FreeSlot { slot: 33 },
            RenderCommand::FreeSlot { slot: 32 },
            RenderCommand::DrawMesh { slot: 30, primitive: 0, texture: t },
            RenderCommand::DrawMesh { slot: 31, primitive: 1, texture: t },
        ]
    );
    assert_eq!(bridge.slot_count(), 2);
    assert_eq!(bridge.release_slots(), vec![31, 30]);
    assert_eq!(bridge.slot_count(), 0);
}

#[test]
fn partial_delta_updates_mirror_image() {
    let mut bridge = FrameBridge::new();
    let t = TextureId::Managed(7);
    frame(&mut bridge, vec![(t, ImageDelta { image: solid(4, 4, 0), pos: None })], vec![], vec![], 1);
    let cmds = frame(&mut bridge, vec![(t, ImageDelta { image: solid(2, 2, 9), pos: Some((1, 1)) })], vec![], vec![], 1);
    assert_eq!(cmds, vec![RenderCommand::UploadTexture { id: t, full: false }]);
    let img = bridge.texture_image(t).unwrap();
    let nines: Vec<usize> = (0..16).filter(|&p| img.pixels[p].r == 9).collect();
    assert_eq!(nines, vec![5, 6, 9, 10]);
}

#[test]
fn patch_without_image_cannot_be_applied() {
    let mut bridge = FrameBridge::new();
    let t = TextureId::Managed(1);
    let patch = vec![(t, ImageDelta { image: solid(1, 1, 0), pos: Some((0, 0)) })];
    assert!(!bridge.can_apply(&patch));
    bridge.register_texture(t);
    assert!(!bridge.can_apply(&patch));
    let both = vec![
        (t, ImageDelta { image: solid(2, 2, 0), pos: None }),
        (t, ImageDelta { image: solid(1, 1, 0), pos: Some((0, 0)) }),
    ];
    assert!(bridge.can_apply(&both));
    let bad = vec![(t, ImageDelta { image: Image { width: 2, height: 2, pixels: vec![] }, pos: None })];
    assert!(!bridge.can_apply(&bad));
}
