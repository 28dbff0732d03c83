//! The frame driver: accumulates input between frames, makes the per-frame
//! decisions, and turns each frame's output into an ordered list of host
//! render commands.

use vstd::prelude::*;
use crate::keys::{CursorIcon, CursorShape, shape_of, mouse_cursor_egui_to_godot};
use crate::input::{
    GuiEvent, HostEvent, HostPoint, Channel, InputScale, Point, RawInputBuffer, translation,
    to_points, pixels_to_points,
};
use crate::texture::{
    TextureId, Image, ImageModel, ImageDelta, TextureStore, apply_delta,
};
use crate::slots::{SlotPool, missing, resized, released};

verus! {

/// Scroll distance of one wheel notch for a new bridge, in hundredths of a point.
pub const DEFAULT_SCROLL_SPEED: i32 = 2000;
/// Render scale of a new bridge, in hundredths of a pixel per point.
pub const DEFAULT_PIXELS_PER_POINT: u32 = 100;

/// One primitive of a frame, as far as the bridge's decisions need it.
#[derive(Clone, Copy, Debug, PartialEq, Eq, Structural)]
pub struct Primitive {
    /// The texture that the primitive's mesh samples.
    pub texture: TextureId,
    /// The number of vertices of its mesh.
    pub vertex_count: usize,
}

/// One call that the host renderer is asked to make, in order.
#[derive(Clone, Copy, Debug, PartialEq, Eq, Structural)]
pub enum RenderCommand {
    /// Upload the bridge's image of `id` to the host; `full` when the whole
    /// image was replaced rather than patched.
    UploadTexture { id: TextureId, full: bool },
    /// Set up a newly created slot, drawn at `draw_index`.
    AttachSlot { slot: u64, draw_index: usize },
    /// Destroy a slot that is no longer needed.
    FreeSlot { slot: u64 },
    /// Clear what a slot draws.
    ClearSlot { slot: u64 },
    /// Draw primitive number `primitive` in `slot`, sampling `texture`.
    DrawMesh { slot: u64, primitive: usize, texture: TextureId },
    /// Primitive number `primitive` names a texture the bridge does not
    /// know; it is skipped.
    MissingTexture { primitive: usize, texture: TextureId },
    /// Release the host's copy of texture `id`.
    FreeTexture { id: TextureId },
}

/// What the GUI context is given at the start of a frame.
pub struct FrameInput {
    /// The events accumulated since the previous frame, in arrival order.
    pub events: Vec<GuiEvent>,
    /// The size of the drawable in hundredths of a point.
    pub screen_size: Point,
    /// Whether the context must be asked to repaint regardless of changes.
    pub force_repaint: bool,
}

/// Errors that the bridge reports.
#[derive(Clone, Copy, Debug, PartialEq, Eq, Structural)]
pub enum BridgeError {
    /// A render scale of 0 was asked for.
    ZeroPixelsPerPoint,
}

/// The mathematical state of a bridge.
pub struct BridgeState {
    pub pending: Seq<GuiEvent>,
    pub textures: Map<TextureId, Option<ImageModel>>,
    pub slots: Seq<u64>,
    pub cursor: CursorIcon,
    pub pointer_captured: bool,
    pub reactive_update: bool,
    pub scroll_speed: i32,
    pub pixels_per_point: u32,
}

/// The texture map after applying each delta of `set` in turn.
pub open spec fn apply_deltas(m: Map<TextureId, Option<ImageModel>>, set: Seq<(TextureId, ImageDelta)>) -> Map<TextureId, Option<ImageModel>>
    decreases set.len(),
{
    if set.len() == 0 {
        m
    } else {
        apply_delta(apply_deltas(m, set.drop_last()), set.last().0, set.last().1)
    }
}

/// The texture map without the ids of `ids`.
pub open spec fn remove_all(m: Map<TextureId, Option<ImageModel>>, ids: Seq<TextureId>) -> Map<TextureId, Option<ImageModel>>
    decreases ids.len(),
{
    if ids.len() == 0 {
        m
    } else {
        remove_all(m, ids.drop_last()).remove(ids.last())
    }
}

/// Every delta of `set` can be applied in turn to `m`: each image holds one
/// pixel per cell, and each patch goes to a texture that holds an image
/// before the set, or that an earlier delta of the set gave one.
pub open spec fn deltas_applicable(m: Map<TextureId, Option<ImageModel>>, set: Seq<(TextureId, ImageDelta)>) -> bool {
    forall|i: int| 0 <= i < set.len() ==> {
        &&& (#[trigger] set[i]).1.image.wf()
        &&& set[i].1.pos is Some ==> (m.contains_key(set[i].0) && m[set[i].0] is Some)
            || exists|j: int| 0 <= j < i && set[j].0 == set[i].0
    }
}

/// Whether texture `id` of `m` holds an image.
pub open spec fn has_image(m: Map<TextureId, Option<ImageModel>>, id: TextureId) -> bool {
    m.contains_key(id) && m[id] is Some
}

/// Whether one of the first `k` deltas of `set` is for texture `id`.
pub open spec fn named_before(set: Seq<(TextureId, ImageDelta)>, k: int, id: TextureId) -> bool {
    exists|j: int| 0 <= j < k && set[j].0 == id
}

/// One upload per texture delta, in order.
pub open spec fn upload_commands(set: Seq<(TextureId, ImageDelta)>) -> Seq<RenderCommand> {
    Seq::new(set.len(), |i: int| RenderCommand::UploadTexture { id: set[i].0, full: set[i].1.pos is None })
}

/// One set-up per new slot, drawn after the `start` slots already there.
pub open spec fn attach_commands(fresh: Seq<u64>, start: nat) -> Seq<RenderCommand> {
    Seq::new(fresh.len(), |i: int| RenderCommand::AttachSlot { slot: fresh[i], draw_index: (start + i) as usize })
}

/// One destruction per released slot, in the order given.
pub open spec fn free_slot_commands(gone: Seq<u64>) -> Seq<RenderCommand> {
    Seq::new(gone.len(), |i: int| RenderCommand::FreeSlot { slot: gone[i] })
}

/// What is done for primitive `i`, drawn in `slot`: an empty mesh clears the
/// slot, a mesh on a known texture is drawn, any other is skipped.
pub open spec fn paint_command(
    p: Primitive,
    i: int,
    slot: u64,
    textures: Map<TextureId, Option<ImageModel>>,
) -> RenderCommand {
    if p.vertex_count == 0 {
        RenderCommand::ClearSlot { slot }
    } else if textures.contains_key(p.texture) {
        RenderCommand::DrawMesh { slot, primitive: i as usize, texture: p.texture }
    } else {
        RenderCommand::MissingTexture { primitive: i as usize, texture: p.texture }
    }
}

/// One command per primitive, primitive `i` in slot `i`.
pub open spec fn paint_commands(
    prims: Seq<Primitive>,
    slots: Seq<u64>,
    textures: Map<TextureId, Option<ImageModel>>,
) -> Seq<RenderCommand> {
    Seq::new(prims.len(), |i: int| paint_command(prims[i], i, slots[i], textures))
}

/// One release per freed texture, in order.
pub open spec fn free_texture_commands(ids: Seq<TextureId>) -> Seq<RenderCommand> {
    Seq::new(ids.len(), |i: int| RenderCommand::FreeTexture { id: ids[i] })
}

/// The state and the commands after a frame's output is rendered. Without
/// a repaint nothing changes and nothing is submitted. Otherwise textures
/// are updated and uploaded, the slot pool is resized to the primitive
/// count, every primitive is painted, and only then are freed textures
/// released.
pub open spec fn render_spec(
    s: BridgeState,
    needs_repaint: bool,
    set: Seq<(TextureId, ImageDelta)>,
    free: Seq<TextureId>,
    prims: Seq<Primitive>,
    fresh: Seq<u64>,
) -> (BridgeState, Seq<RenderCommand>) {
    if !needs_repaint {
        (s, Seq::empty())
    } else {
        let textures = apply_deltas(s.textures, set);
        let slots = resized(s.slots, prims.len(), fresh);
        let cmds = upload_commands(set) + attach_commands(fresh, s.slots.len()) + free_slot_commands(
            released(s.slots, prims.len()),
        ) + paint_commands(prims, slots, textures) + free_texture_commands(free);
        (BridgeState { textures: remove_all(textures, free), slots, ..s }, cmds)
    }
}

/// Two frames in a row that need no repaint submit nothing to the renderer
/// and leave the bridge as it was, whatever their texture deltas and
/// primitives.
pub proof fn lemma_idle_frames_submit_nothing(
    s: BridgeState,
    set1: Seq<(TextureId, ImageDelta)>,
    free1: Seq<TextureId>,
    prims1: Seq<Primitive>,
    set2: Seq<(TextureId, ImageDelta)>,
    free2: Seq<TextureId>,
    prims2: Seq<Primitive>,
)
    ensures
        ({
            let (s1, c1) = render_spec(s, false, set1, free1, prims1, Seq::empty());
            let (s2, c2) = render_spec(s1, false, set2, free2, prims2, Seq::empty());
            &&& c1.len() == 0
            &&& c2.len() == 0
            &&& s2 == s
        }),
{
}

/// The bridge between the GUI context and the host renderer.
pub struct FrameBridge {
    input: RawInputBuffer,
    textures: TextureStore,
    slots: SlotPool,
    cursor: CursorIcon,
    pointer_captured: bool,
    reactive_update: bool,
    scroll_speed: i32,
    pixels_per_point: u32,
}

impl View for FrameBridge {
    type V = BridgeState;

    closed spec fn view(&self) -> BridgeState {
        BridgeState {
            pending: self.input@,
            textures: self.textures@,
            slots: self.slots@,
            cursor: self.cursor,
            pointer_captured: self.pointer_captured,
            reactive_update: self.reactive_update,
            scroll_speed: self.scroll_speed,
            pixels_per_point: self.pixels_per_point,
        }
    }
}

impl FrameBridge {
    /// The texture store is consistent and the render scale is not 0.
    pub closed spec fn wf(&self) -> bool {
        &&& self.textures.wf()
        &&& self.pixels_per_point > 0
    }

    /// The scale with which input is translated, the drawable's origin being
    /// at `origin`.
    pub open spec fn scale_at(s: BridgeState, origin: HostPoint) -> InputScale {
        InputScale { origin, pixels_per_point: s.pixels_per_point, scroll_speed: s.scroll_speed }
    }

    /// A bridge with no pending input, textures or slots, the default
    /// cursor, continuous updates, the default scroll speed and a render
    /// scale of one pixel per point.
    pub fn new() -> (r: Self)
        ensures
            r.wf(),
            r@.pending == Seq::<GuiEvent>::empty(),
            r@.textures == Map::<TextureId, Option<ImageModel>>::empty(),
            r@.slots == Seq::<u64>::empty(),
            r@.cursor == CursorIcon::Default,
            !r@.pointer_captured,
            !r@.reactive_update,
            r@.scroll_speed == DEFAULT_SCROLL_SPEED,
            r@.pixels_per_point == DEFAULT_PIXELS_PER_POINT,
    {
        FrameBridge {
            input: RawInputBuffer::new(),
            textures: TextureStore::new(),
            slots: SlotPool::new(),
            cursor: CursorIcon::Default,
            pointer_captured: false,
            reactive_update: false,
            scroll_speed: DEFAULT_SCROLL_SPEED,
            pixels_per_point: DEFAULT_PIXELS_PER_POINT,
        }
    }

    /// Appends the translation of one host event to the pending input.
    pub fn handle_input(&mut self, ev: &HostEvent, channel: Channel, origin: HostPoint)
        requires
            old(self).wf(),
        ensures
            final(self).wf(),
            final(self)@ == (BridgeState {
                pending: old(self)@.pending + translation(*ev, channel, Self::scale_at(old(self)@, origin)),
                ..old(self)@
            }),
    {
        let scale = InputScale {
            origin,
            pixels_per_point: self.pixels_per_point,
            scroll_speed: self.scroll_speed,
        };
        self.input.push_host_event(ev, channel, &scale);
    }

    /// Starts a frame: hands out the pending input, leaving none, with the
    /// drawable's size (`width` by `height` hundredths of a pixel) in
    /// hundredths of a point, and asks for a repaint unless updates are
    /// reactive.
    pub fn begin_frame(&mut self, width: i32, height: i32) -> (r: FrameInput)
        requires
            old(self).wf(),
        ensures
            final(self).wf(),
            r.events@ == old(self)@.pending,
            r.screen_size == (Point {
                x: to_points(width as int, old(self)@.pixels_per_point as int) as i64,
                y: to_points(height as int, old(self)@.pixels_per_point as int) as i64,
            }),
            r.force_repaint == !old(self)@.reactive_update,
            final(self)@ == (BridgeState { pending: Seq::empty(), ..old(self)@ }),
    {
        let events = self.input.take();
        let screen_size = Point {
            x: pixels_to_points(width as i64, self.pixels_per_point),
            y: pixels_to_points(height as i64, self.pixels_per_point),
        };
        FrameInput { events, screen_size, force_repaint: !self.reactive_update }
    }

    /// Ends a frame: records whether the GUI is using the pointer and, when
    /// the requested cursor differs from the current one, makes it current
    /// and returns the host shape to show.
    pub fn end_frame(&mut self, cursor: CursorIcon, pointer_in_use: bool) -> (r: Option<CursorShape>)
        requires
            old(self).wf(),
        ensures
            final(self).wf(),
            r == if cursor == old(self)@.cursor { None } else { Some(shape_of(cursor)) },
            final(self)@ == (BridgeState { cursor, pointer_captured: pointer_in_use, ..old(self)@ }),
    {
        self.pointer_captured = pointer_in_use;
        if self.cursor != cursor {
            self.cursor = cursor;
            Some(mouse_cursor_egui_to_godot(cursor))
        } else {
            None
        }
    }

    /// Sets the render scale, in hundredths of a pixel per point. A scale
    /// of 0 is refused and leaves the bridge as it was.
    pub fn set_pixels_per_point(&mut self, pixels_per_point: u32) -> (r: Result<(), BridgeError>)
        requires
            old(self).wf(),
        ensures
            final(self).wf(),
            pixels_per_point == 0 ==> r == Err::<(), BridgeError>(BridgeError::ZeroPixelsPerPoint)
                && final(self)@ == old(self)@,
            pixels_per_point > 0 ==> r is Ok && final(self)@ == (BridgeState { pixels_per_point, ..old(self)@ }),
    {
        if pixels_per_point == 0 {
            Err(BridgeError::ZeroPixelsPerPoint)
        } else {
            self.pixels_per_point = pixels_per_point;
            Ok(())
        }
    }

    /// The render scale, in hundredths of a pixel per point.
    pub fn pixels_per_point(&self) -> (r: u32)
        ensures
            r == self@.pixels_per_point,
    {
        self.pixels_per_point
    }

    /// Chooses between reactive updates (repaint only when the GUI asks) and
    /// continuous ones (repaint every frame).
    pub fn set_reactive_update(&mut self, reactive_update: bool)
        requires
            old(self).wf(),
        ensures
            final(self).wf(),
            final(self)@ == (BridgeState { reactive_update, ..old(self)@ }),
    {
        self.reactive_update = reactive_update;
    }

    /// Whether updates are reactive.
    pub fn reactive_update(&self) -> (r: bool)
        ensures
            r == self@.reactive_update,
    {
        self.reactive_update
    }

    /// Sets the scroll distance of one wheel notch, in hundredths of a point.
    pub fn set_scroll_speed(&mut self, scroll_speed: i32)
        requires
            old(self).wf(),
        ensures
            final(self).wf(),
            final(self)@ == (BridgeState { scroll_speed, ..old(self)@ }),
    {
        self.scroll_speed = scroll_speed;
    }

    /// The scroll distance of one wheel notch, in hundredths of a point.
    pub fn scroll_speed(&self) -> (r: i32)
        ensures
            r == self@.scroll_speed,
    {
        self.scroll_speed
    }

    /// Whether the GUI was using the pointer at the end of the last frame.
    pub fn mouse_was_captured(&self) -> (r: bool)
        ensures
            r == self@.pointer_captured,
    {
        self.pointer_captured
    }

    /// The cursor icon that the host currently shows.
    pub fn cursor_icon(&self) -> (r: CursorIcon)
        ensures
            r == self@.cursor,
    {
        self.cursor
    }

    /// Records a texture that the host holds itself, so that primitives may
    /// draw with it.
    pub fn register_texture(&mut self, id: TextureId)
        requires
            old(self).wf(),
        ensures
            final(self).wf(),
            final(self)@ == (BridgeState { textures: old(self)@.textures.insert(id, None), ..old(self)@ }),
    {
        self.textures.register(id);
    }

    /// Whether the bridge knows texture `id`.
    pub fn has_texture(&self, id: TextureId) -> (r: bool)
        requires
            self.wf(),
        ensures
            r == self@.textures.contains_key(id),
    {
        self.textures.contains(id)
    }

    /// The bridge's image of texture `id`, when it holds one.
    pub fn texture_image(&self, id: TextureId) -> (r: Option<&Image>)
        requires
            self.wf(),
        ensures
            match r {
                Some(img) => has_image(self@.textures, id) && self@.textures[id] == Some(img.model()),
                None => !has_image(self@.textures, id),
            },
    {
        self.textures.image(id)
    }

    /// The number of slots in the pool.
    pub fn slot_count(&self) -> (r: usize)
        ensures
            r == self@.slots.len(),
    {
        self.slots.len()
    }

    /// Empties the slot pool, returning every slot for the host to destroy,
    /// last created first.
    pub fn release_slots(&mut self) -> (r: Vec<u64>)
        requires
            old(self).wf(),
        ensures
            final(self).wf(),
            r@ == released(old(self)@.slots, 0),
            final(self)@ == (BridgeState { slots: Seq::empty(), ..old(self)@ }),
    {
        self.slots.release_all()
    }

    /// How many slots the host must create before rendering a frame of
    /// `primitive_count` primitives.
    pub fn slots_to_create(&self, needs_repaint: bool, primitive_count: usize) -> (r: usize)
        ensures
            r == if needs_repaint { missing(self@.slots.len(), primitive_count as nat) } else { 0 },
    {
        if needs_repaint {
            self.slots.slots_missing(primitive_count)
        } else {
            0
        }
    }

    /// Whether every delta of `set` can be applied in turn.
    pub fn can_apply(&self, set: &Vec<(TextureId, ImageDelta)>) -> (r: bool)
        requires
            self.wf(),
        ensures
            r == deltas_applicable(self@.textures, set@),
    {
        let mut i: usize = 0;
        while i < set.len()
            invariant
                self.wf(),
                i <= set@.len(),
                deltas_applicable(self@.textures, set@.take(i as int)),
            decreases set@.len() - i,
        {
            let id = set[i].0;
            let delta = &set[i].1;
            let len = delta.image.pixels.len();
            let cells = delta.image.width.checked_mul(delta.image.height);
            let sized = match cells {
                Some(c) => c == len,
                None => false,
            };
            if !sized {
                proof {
                    assert(!deltas_applicable(self@.textures, set@)) by {
                        assert(!set@[i as int].1.image.wf());
                    }
                }
                return false;
            }
            let mut known = match self.textures.image(id) {
                Some(_) => true,
                None => false,
            };
            if delta.pos.is_some() {
                let mut j: usize = 0;
                while j < i && !known
                    invariant
                        j <= i < set@.len(),
                        id == set@[i as int].0,
                        known ==> (self@.textures.contains_key(id) && self@.textures[id] is Some)
                            || exists|jj: int| 0 <= jj < i && set@[jj].0 == id,
                        !known ==> !(self@.textures.contains_key(id) && self@.textures[id] is Some)
                            && forall|jj: int| 0 <= jj < j ==> set@[jj].0 != id,
                    decreases i - j,
                {
                    if set[j].0 == id {
                        known = true;
                    }
                    j = j + 1;
                }
                if !known {
                    proof {
                        assert(!deltas_applicable(self@.textures, set@)) by {
                            let e = set@[i as int];
                            assert(e.1.pos is Some);
                        }
                    }
                    return false;
                }
            }
            proof {
                let t = set@.take(i + 1);
                let prev = set@.take(i as int);
                assert forall|k: int| 0 <= k < t.len() implies {
                    &&& (#[trigger] t[k]).1.image.wf()
                    &&& t[k].1.pos is Some ==> (self@.textures.contains_key(t[k].0)
                        && self@.textures[t[k].0] is Some)
                        || exists|j: int| 0 <= j < k && t[j].0 == t[k].0
                } by {
                    assert(t[k] == set@[k]);
                    if k < i {
                        assert(prev[k] == t[k]);
                        if t[k].1.pos is Some && !(self@.textures.contains_key(t[k].0)
                            && self@.textures[t[k].0] is Some) {
                            let j = choose|j: int| 0 <= j < k && prev[j].0 == prev[k].0;
                            assert(t[j] == prev[j]);
                        }
                    } else if t[k].1.pos is Some && !(self@.textures.contains_key(t[k].0)
                        && self@.textures[t[k].0] is Some) {
                        let j = choose|j: int| 0 <= j < i && set@[j].0 == id;
                        assert(t[j] == set@[j]);
                    }
                }
            }
            i = i + 1;
        }
        assert(set@.take(set@.len() as int) =~= set@);
        true
    }

    /// Renders a frame's output. Without a repaint nothing happens and no
    /// command is returned. Otherwise the texture deltas are applied and
    /// uploaded, the slot pool is resized to the primitive count (new slots,
    /// `fresh`, set up in drawing order; surplus ones destroyed last first),
    /// each primitive is painted in its slot, and the freed textures are
    /// released last.
    pub fn render(
        &mut self,
        needs_repaint: bool,
        set: Vec<(TextureId, ImageDelta)>,
        free: &Vec<TextureId>,
        prims: &Vec<Primitive>,
        fresh: Vec<u64>,
    ) -> (r: Vec<RenderCommand>)
        requires
            old(self).wf(),
            needs_repaint ==> deltas_applicable(old(self)@.textures, set@),
            fresh@.len() == if needs_repaint {
                missing(old(self)@.slots.len(), prims@.len())
            } else {
                0
            },
        ensures
            final(self).wf(),
            (final(self)@, r@) == render_spec(old(self)@, needs_repaint, set@, free@, prims@, fresh@),
    {
        if !needs_repaint {
            return Vec::new();
        }
        let ghost s0 = self@;
        let mut cmds: Vec<RenderCommand> = Vec::new();

        // Texture deltas, in order.
        let ghost orig = set@;
        let mut set = set;
        let n = set.len();
        let mut k: usize = 0;
        while k < n
            invariant
                self.wf(),
                k <= n == set@.len() == orig.len(),
                deltas_applicable(s0.textures, orig),
                forall|j: int| k <= j < n ==> set@[j] == orig[j],
                self@ == (BridgeState { textures: apply_deltas(s0.textures, orig.take(k as int)), ..s0 }),
                forall|id: TextureId|
                    has_image(s0.textures, id) || named_before(orig, k as int, id) ==> #[trigger] has_image(
                        self@.textures,
                        id,
                    ),
                cmds@ == upload_commands(orig.take(k as int)),
            decreases n - k,
        {
            let mut entry = (
                TextureId::Managed(0),
                ImageDelta { image: Image { width: 0, height: 0, pixels: Vec::new() }, pos: None },
            );
            std::mem::swap(&mut entry, &mut set[k]);
            let (id, delta) = entry;
            assert(orig[k as int] == (id, delta));
            let ghost before = self@.textures;
            cmds.push(RenderCommand::UploadTexture { id, full: delta.pos.is_none() });
            proof {
                assert(orig[k as int].1.image.wf());
                if delta.pos is Some {
                    if !has_image(s0.textures, id) {
                        let j = choose|j: int| 0 <= j < k && orig[j].0 == orig[k as int].0;
                        assert(orig[j].0 == id);
                        assert(named_before(orig, k as int, id));
                    }
                    assert(has_image(before, id));
                }
            }
            self.textures.apply(id, delta);
            proof {
                assert(orig.take(k + 1).drop_last() =~= orig.take(k as int));
                assert(cmds@ =~= upload_commands(orig.take(k + 1)));
                assert forall|i: TextureId|
                    has_image(s0.textures, i) || named_before(orig, k + 1, i) implies #[trigger] has_image(
                        self@.textures,
                        i,
                    ) by {
                    if i != id {
                        if !has_image(s0.textures, i) {
                            let j = choose|j: int| 0 <= j < k + 1 && orig[j].0 == i;
                            assert(j < k);
                            assert(named_before(orig, k as int, i));
                        }
                        assert(has_image(before, i));
                    }
                }
            }
            k = k + 1;
        }
        assert(orig.take(n as int) =~= orig);
        let ghost textures = self@.textures;

        // Slot set-up for the new slots, in drawing order.
        let count = prims.len();
        let start = self.slots.len();
        let mut i: usize = 0;
        while i < fresh.len()
            invariant
                i <= fresh@.len() == missing(start as nat, count as nat),
                start == s0.slots.len(),
                cmds@ == upload_commands(orig) + attach_commands(fresh@, start as nat).take(i as int),
            decreases fresh@.len() - i,
        {
            cmds.push(RenderCommand::AttachSlot { slot: fresh[i], draw_index: start + i });
            assert(attach_commands(fresh@, start as nat).take(i + 1) =~= attach_commands(fresh@, start as nat).take(i as int).push(
                RenderCommand::AttachSlot { slot: fresh@[i as int], draw_index: (start + i) as usize },
            ));
            i = i + 1;
        }
        assert(attach_commands(fresh@, start as nat).take(fresh@.len() as int) =~= attach_commands(fresh@, start as nat));
        let ghost head = cmds@;

        // Surplus slots, last created first.
        let gone = self.slots.resize(count, fresh);
        let mut i: usize = 0;
        while i < gone.len()
            invariant
                i <= gone@.len(),
                cmds@ == head + free_slot_commands(gone@).take(i as int),
            decreases gone@.len() - i,
        {
            cmds.push(RenderCommand::FreeSlot { slot: gone[i] });
            assert(free_slot_commands(gone@).take(i + 1) =~= free_slot_commands(gone@).take(i as int).push(
                RenderCommand::FreeSlot { slot: gone@[i as int] },
            ));
            i = i + 1;
        }
        assert(free_slot_commands(gone@).take(gone@.len() as int) =~= free_slot_commands(gone@));
        let ghost head = cmds@;
        let ghost slots = self@.slots;

        // One command per primitive.
        let mut i: usize = 0;
        while i < count
            invariant
                self.wf(),
                i <= count == prims@.len() == slots.len(),
                self@.slots == slots,
                self@.textures == textures,
                cmds@ == head + paint_commands(prims@, slots, textures).take(i as int),
            decreases count - i,
        {
            let p = prims[i];
            let slot = self.slots.slot(i);
            let c = if p.vertex_count == 0 {
                RenderCommand::ClearSlot { slot }
            } else if self.textures.contains(p.texture) {
                RenderCommand::DrawMesh { slot, primitive: i, texture: p.texture }
            } else {
                RenderCommand::MissingTexture { primitive: i, texture: p.texture }
            };
            cmds.push(c);
            assert(paint_commands(prims@, slots, textures).take(i + 1) =~= paint_commands(prims@, slots, textures).take(
                i as int,
            ).push(c));
            i = i + 1;
        }
        assert(paint_commands(prims@, slots, textures).take(count as int) =~= paint_commands(prims@, slots, textures));
        let ghost head = cmds@;

        // Freed textures, after painting.
        let mut i: usize = 0;
        while i < free.len()
            invariant
                self.wf(),
                i <= free@.len(),
                self@ == (BridgeState { textures: remove_all(textures, free@.take(i as int)), slots, ..s0 }),
                cmds@ == head + free_texture_commands(free@).take(i as int),
            decreases free@.len() - i,
        {
            let id = free[i];
            self.textures.remove(id);
            cmds.push(RenderCommand::FreeTexture { id });
            assert(free@.take(i + 1).drop_last() =~= free@.take(i as int));
            assert(free_texture_commands(free@).take(i + 1) =~= free_texture_commands(free@).take(i as int).push(
                RenderCommand::FreeTexture { id },
            ));
            i = i + 1;
        }
        assert(free_texture_commands(free@).take(free@.len() as int) =~= free_texture_commands(free@));
        assert(free@.take(free@.len() as int) =~= free@);
        cmds
    }
}

} // verus!
