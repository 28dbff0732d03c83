//! Mirror of the textures that the GUI library asks the host to hold, with
//! full replacements and partial (sub-region) updates.

use vstd::prelude::*;

verus! {

/// One premultiplied RGBA pixel.
#[derive(Clone, Copy, Debug, PartialEq, Eq, Structural)]
pub struct Texel {
    pub r: u8,
    pub g: u8,
    pub b: u8,
    pub a: u8,
}

/// Identifies a texture: one that the GUI library manages, or one that the
/// host registered itself.
#[derive(Clone, Copy, Debug, PartialEq, Eq, Hash, Structural)]
pub enum TextureId {
    Managed(u64),
    User(u64),
}

/// An image stored row by row, top to bottom.
#[derive(Clone, Debug)]
pub struct Image {
    pub width: usize,
    pub height: usize,
    pub pixels: Vec<Texel>,
}

/// The mathematical content of an image.
pub struct ImageModel {
    pub width: nat,
    pub height: nat,
    pub pixels: Seq<Texel>,
}

impl Image {
    pub open spec fn model(&self) -> ImageModel {
        ImageModel { width: self.width as nat, height: self.height as nat, pixels: self.pixels@ }
    }

    /// Holds exactly one pixel per cell of the `width` by `height` grid.
    pub open spec fn wf(&self) -> bool {
        self.pixels@.len() == self.width * self.height
    }
}

/// A change to one texture: the whole image when `pos` is `None`, else a
/// patch whose top-left corner goes to column `pos.0`, row `pos.1`.
#[derive(Clone, Debug)]
pub struct ImageDelta {
    pub image: Image,
    pub pos: Option<(usize, usize)>,
}

/// Whether pixel `p` of an image `width` pixels wide lies in the region of
/// `w` by `h` pixels whose top-left corner is at column `x0`, row `y0`.
pub open spec fn in_region(p: int, width: nat, x0: nat, y0: nat, w: nat, h: nat) -> bool {
    &&& x0 <= p % (width as int) < x0 + w
    &&& y0 <= p / (width as int) < y0 + h
}

/// The index, in a patch `w` pixels wide placed at (`x0`, `y0`), of the
/// pixel that covers pixel `p` of an image `width` pixels wide.
pub open spec fn region_index(p: int, width: nat, x0: nat, y0: nat, w: nat) -> int {
    (p / (width as int) - y0) * w + (p % (width as int) - x0)
}

/// `dst` with the patch `src` copied in at (`x0`, `y0`); the parts of the
/// patch that fall outside `dst` are cut off.
pub open spec fn blit(dst: ImageModel, src: ImageModel, x0: nat, y0: nat) -> ImageModel {
    ImageModel {
        width: dst.width,
        height: dst.height,
        pixels: Seq::new(
            dst.pixels.len(),
            |p: int|
                if in_region(p, dst.width, x0, y0, src.width, src.height) {
                    src.pixels[region_index(p, dst.width, x0, y0, src.width)]
                } else {
                    dst.pixels[p]
                },
        ),
    }
}

/// Copies the patch `src` into `dst` at column `x0`, row `y0`, leaving every
/// pixel outside the patch as it was.
pub fn blit_into(dst: &mut Image, src: &Image, x0: usize, y0: usize)
    requires
        old(dst).wf(),
        src.wf(),
    ensures
        final(dst).wf(),
        final(dst).model() == blit(old(dst).model(), src.model(), x0 as nat, y0 as nat),
{
    let ghost before = dst.model();
    let n = dst.pixels.len();
    let width = dst.width;
    let mut p: usize = 0;
    while p < n
        invariant
            0 <= p <= n,
            n == dst.pixels@.len(),
            n == width * dst.height,
            dst.width == width,
            dst.width == before.width,
            dst.height == before.height,
            before.pixels.len() == n,
            src.wf(),
            forall|q: int|
                0 <= q < p ==> dst.pixels@[q] == #[trigger] blit(before, src.model(), x0 as nat, y0 as nat).pixels[q],
            forall|q: int| p <= q < n ==> dst.pixels@[q] == before.pixels[q],
        decreases n - p,
    {
        assert(width > 0) by (nonlinear_arith)
            requires p < n, n == width * dst.height;
        let x = p % width;
        let y = p / width;
        if x >= x0 && x - x0 < src.width && y >= y0 && y - y0 < src.height {
            let row = y - y0;
            let col = x - x0;
            assert(row * src.width + col < src.width * src.height) by (nonlinear_arith)
                requires row < src.height, col < src.width;
            let src_len = src.pixels.len();
            assert(row * src.width + col < src_len);
            let k = row * src.width + col;
            let t = src.pixels[k];
            dst.pixels.set(p, t);
        }
        p = p + 1;
    }
    assert(dst.model().pixels =~= blit(before, src.model(), x0 as nat, y0 as nat).pixels);
}

/// The content of a texture record: `None` for a texture that the host
/// registered and holds itself.
pub open spec fn content_model(c: Option<Image>) -> Option<ImageModel> {
    match c {
        Some(img) => Some(img.model()),
        None => None,
    }
}

/// Whether `d` can be applied to texture `id` of `m`: its image holds one
/// pixel per cell, and a patch goes onto an image that is already there.
pub open spec fn delta_applicable(m: Map<TextureId, Option<ImageModel>>, id: TextureId, d: ImageDelta) -> bool {
    &&& d.image.wf()
    &&& d.pos is Some ==> m.contains_key(id) && m[id] is Some
}

/// `m` after applying `d` to texture `id`: a full image replaces the record
/// (or creates it); a patch is copied into the image already there.
pub open spec fn apply_delta(m: Map<TextureId, Option<ImageModel>>, id: TextureId, d: ImageDelta) -> Map<TextureId, Option<ImageModel>> {
    match d.pos {
        None => m.insert(id, Some(d.image.model())),
        Some((x, y)) => m.insert(id, Some(blit(m[id]->Some_0, d.image.model(), x as nat, y as nat))),
    }
}

/// A full image followed by a patch for the same texture: the patch may be
/// applied, and afterwards the texture holds the patch's pixels inside the
/// patch's region and the full image's pixels everywhere else; its size is
/// that of the full image, and every other texture is left as it was.
pub proof fn lemma_full_then_patch(
    m: Map<TextureId, Option<ImageModel>>,
    id: TextureId,
    full: ImageDelta,
    patch: ImageDelta,
)
    requires
        full.pos is None,
        patch.pos is Some,
        full.image.wf(),
        patch.image.wf(),
    ensures
        delta_applicable(m, id, full),
        delta_applicable(apply_delta(m, id, full), id, patch),
        ({
            let r = apply_delta(apply_delta(m, id, full), id, patch);
            let img = r[id]->Some_0;
            let (x0, y0) = patch.pos->Some_0;
            &&& r.contains_key(id)
            &&& r[id] is Some
            &&& img.width == full.image.width
            &&& img.height == full.image.height
            &&& img.pixels.len() == full.image.pixels@.len()
            &&& forall|p: int|
                0 <= p < img.pixels.len() ==> #[trigger] img.pixels[p] == if in_region(
                    p,
                    full.image.width as nat,
                    x0 as nat,
                    y0 as nat,
                    patch.image.width as nat,
                    patch.image.height as nat,
                ) {
                    patch.image.pixels@[region_index(p, full.image.width as nat, x0 as nat, y0 as nat, patch.image.width as nat)]
                } else {
                    full.image.pixels@[p]
                }
            &&& forall|k: TextureId| k != id ==> (#[trigger] r.contains_key(k) == m.contains_key(k)) && r[k] == m[k]
        }),
{
}

/// The textures known to the bridge, each by a distinct id.
pub struct TextureStore {
    ids: Vec<TextureId>,
    contents: Vec<Option<Image>>,
    model: Ghost<Map<TextureId, Option<ImageModel>>>,
}

impl View for TextureStore {
    type V = Map<TextureId, Option<ImageModel>>;

    closed spec fn view(&self) -> Map<TextureId, Option<ImageModel>> {
        self.model@
    }
}

impl TextureStore {
    /// Ids are distinct, and each record's content is what the map holds.
    pub closed spec fn wf(&self) -> bool {
        &&& self.ids@.len() == self.contents@.len()
        &&& forall|i: int, j: int|
            0 <= i < j < self.ids@.len() ==> self.ids@[i] != self.ids@[j]
        &&& forall|i: int|
            0 <= i < self.ids@.len() ==> self.model@.contains_key(#[trigger] self.ids@[i])
                && self.model@[self.ids@[i]] == content_model(self.contents@[i])
        &&& forall|id: TextureId| #[trigger]
            self.model@.contains_key(id) ==> self.ids@.contains(id)
        &&& forall|i: int|
            0 <= i < self.contents@.len() ==> match #[trigger] self.contents@[i] {
                Some(img) => img.wf(),
                None => true,
            }
    }

    /// A store with no texture.
    pub fn new() -> (r: Self)
        ensures
            r.wf(),
            r@ == Map::<TextureId, Option<ImageModel>>::empty(),
    {
        TextureStore { ids: Vec::new(), contents: Vec::new(), model: Ghost(Map::empty()) }
    }

    fn position(&self, id: TextureId) -> (r: Option<usize>)
        requires
            self.wf(),
        ensures
            match r {
                Some(i) => i < self.ids@.len() && self.ids@[i as int] == id,
                None => !self@.contains_key(id),
            },
    {
        let mut i: usize = 0;
        while i < self.ids.len()
            invariant
                self.wf(),
                i <= self.ids@.len(),
                forall|j: int| 0 <= j < i ==> self.ids@[j] != id,
            decreases self.ids@.len() - i,
        {
            if self.ids[i] == id {
                return Some(i);
            }
            i = i + 1;
        }
        None
    }

    /// Whether the store holds a record for `id`.
    pub fn contains(&self, id: TextureId) -> (r: bool)
        requires
            self.wf(),
        ensures
            r == self@.contains_key(id),
    {
        self.position(id).is_some()
    }

    /// The image held for `id`, if the store holds one.
    pub fn image(&self, id: TextureId) -> (r: Option<&Image>)
        requires
            self.wf(),
        ensures
            match r {
                Some(img) => self@.contains_key(id) && self@[id] == Some(img.model()) && img.wf(),
                None => !self@.contains_key(id) || self@[id] is None,
            },
    {
        match self.position(id) {
            Some(i) => match &self.contents[i] {
                Some(img) => Some(img),
                None => None,
            },
            None => None,
        }
    }

    /// Sets the content of the record for `id`, creating it if needed.
    fn put(&mut self, id: TextureId, content: Option<Image>)
        requires
            old(self).wf(),
            match content {
                Some(img) => img.wf(),
                None => true,
            },
        ensures
            final(self).wf(),
            final(self)@ == old(self)@.insert(id, content_model(content)),
    {
        let ghost m = self.model@.insert(id, content_model(content));
        match self.position(id) {
            Some(i) => {
                self.contents.set(i, content);
                proof {
                    assert forall|k: TextureId| #[trigger] m.contains_key(k) implies self.ids@.contains(k) by {
                        if k == id {
                            assert(self.ids@[i as int] == k);
                        }
                    }
                }
            },
            None => {
                self.ids.push(id);
                self.contents.push(content);
                proof {
                    assert forall|k: TextureId| #[trigger] m.contains_key(k) implies self.ids@.contains(k) by {
                        if k == id {
                            assert(self.ids@[self.ids@.len() - 1] == k);
                        } else {
                            assert(old(self).ids@.contains(k));
                            let j = choose|j: int| 0 <= j < old(self).ids@.len() && old(self).ids@[j] == k;
                            assert(self.ids@[j] == k);
                        }
                    }
                }
            },
        }
        self.model = Ghost(m);
    }

    /// Records a texture that the host holds itself under `id`.
    pub fn register(&mut self, id: TextureId)
        requires
            old(self).wf(),
        ensures
            final(self).wf(),
            final(self)@ == old(self)@.insert(id, None),
    {
        self.put(id, None);
    }

    /// Applies one texture delta: a full image replaces or creates the
    /// record, a patch is copied into the image already held.
    pub fn apply(&mut self, id: TextureId, delta: ImageDelta)
        requires
            old(self).wf(),
            delta_applicable(old(self)@, id, delta),
        ensures
            final(self).wf(),
            final(self)@ == apply_delta(old(self)@, id, delta),
    {
        match delta.pos {
            None => {
                self.put(id, Some(delta.image));
            },
            Some((x, y)) => {
                let i = self.position(id).unwrap();
                let mut content: Option<Image> = None;
                std::mem::swap(&mut content, &mut self.contents[i]);
                assert(content == old(self).contents@[i as int]);
                let mut img = content.unwrap();
                blit_into(&mut img, &delta.image, x, y);
                let ghost m = self.model@.insert(id, Some(img.model()));
                self.contents.set(i, Some(img));
                proof {
                    assert forall|k: TextureId| #[trigger] m.contains_key(k) implies self.ids@.contains(k) by {
                        if k == id {
                            assert(self.ids@[i as int] == k);
                        }
                    }
                }
                self.model = Ghost(m);
            },
        }
    }

    /// Forgets the record for `id`, if there is one.
    pub fn remove(&mut self, id: TextureId)
        requires
            old(self).wf(),
        ensures
            final(self).wf(),
            final(self)@ == old(self)@.remove(id),
    {
        let ghost m = self.model@.remove(id);
        match self.position(id) {
            Some(i) => {
                self.ids.remove(i);
                self.contents.remove(i);
                proof {
                    assert forall|k: TextureId| #[trigger] m.contains_key(k) implies self.ids@.contains(k) by {
                        assert(old(self).ids@.contains(k));
                        let j = choose|j: int| 0 <= j < old(self).ids@.len() && old(self).ids@[j] == k;
                        if j < i {
                            assert(self.ids@[j] == k);
                        } else {
                            assert(self.ids@[j - 1] == k);
                        }
                    }
                }
            },
            None => {},
        }
        self.model = Ghost(m);
    }
}

} // verus!
