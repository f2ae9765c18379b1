//! An in-memory graphics connection: a verified backend that implements the
//! capability traits against a table of known resources, tracks which
//! handles are live, and records every draw call it receives.
//!
//! The connection plays the role of the native graphics context: loading
//! allocates a fresh handle, drawing appends to a frame journal, and
//! releasing a handle returns it to the connection exactly once. Because
//! [`Image`] is move-only and [`MemoryGraphics::release`] consumes it, a
//! second release of the same handle cannot be expressed at all, and no
//! operation on a released handle can be written.

use vstd::prelude::*;
use vstd::slice::slice_index_get;
use vstd::string::StringSliceAdditionalSpecFns;

use crate::flip::Flip;
use crate::{DrawImage, HasSize, LoadImage};

verus! {

/// A resource the connection can load: a path together with the pixel
/// extent of the bitmap stored there.
#[derive(Debug, Clone)]
pub struct Resource {
    /// The path under which the bitmap is addressable.
    pub path: String,
    /// The bitmap's width in pixels; never negative.
    pub width: i32,
    /// The bitmap's height in pixels; never negative.
    pub height: i32,
}

/// One recorded call of the raw drawing primitive.
#[derive(Debug, Clone, Copy)]
pub struct DrawCall {
    /// The identifier of the handle that was drawn.
    pub image: u64,
    /// The top-left screen coordinate the bitmap was placed at.
    pub top_left: (i32, i32),
    /// The orientation the bitmap was drawn in.
    pub flip: Flip,
}

/// Error returned when attempting to load an image that cannot be found.
///
/// Carries the offending path. A structurally invalid path (one with an
/// embedded terminator byte) is deliberately reported the same way as a
/// missing resource.
#[non_exhaustive]
#[derive(Debug, Clone)]
pub struct ImageNotFoundError(pub String);

/// The mathematical state of a connection.
pub struct GraphicsModel {
    /// The identity of the connection; handles remember it.
    pub conn: u64,
    /// The resources the connection can load, in insertion order.
    pub resources: Seq<Resource>,
    /// The identifiers of the handles that are currently live.
    pub live: Seq<u64>,
    /// Every draw call received so far, oldest first.
    pub frame: Seq<DrawCall>,
    /// The identifier the next successful load will hand out.
    pub next_id: u64,
}

/// The mathematical state of a handle.
pub struct ImageModel {
    /// The identity of the connection that created the handle.
    pub conn: u64,
    /// The handle's identifier, unique among the connection's handles.
    pub id: u64,
    /// The bitmap's width in pixels; never negative.
    pub width: i32,
    /// The bitmap's height in pixels; never negative.
    pub height: i32,
}

/// An owned handle to a loaded bitmap. Move-only: it cannot be duplicated,
/// and releasing it consumes it, so use after release and double release are
/// ruled out by construction.
#[derive(Debug)]
pub struct Image {
    conn: u64,
    id: u64,
    width: i32,
    height: i32,
}

impl View for Image {
    type V = ImageModel;

    closed spec fn view(&self) -> ImageModel {
        ImageModel { conn: self.conn, id: self.id, width: self.width, height: self.height }
    }
}

impl Image {
    #[verifier::type_invariant]
    spec fn well_formed(&self) -> bool {
        self.width >= 0 && self.height >= 0
    }

    /// The handle's identifier within its connection.
    pub fn id(&self) -> (r: u64)
        ensures
            r == self@.id,
    {
        self.id
    }

    /// The identity of the connection the handle was loaded from.
    pub fn conn(&self) -> (r: u64)
        ensures
            r == self@.conn,
    {
        self.conn
    }
}

impl HasSize for Image {
    open spec fn spec_size(&self) -> (i32, i32) {
        (self@.width, self@.height)
    }

    fn size(&self) -> (r: (i32, i32)) {
        proof {
            use_type_invariant(&*self);
        }
        (self.width, self.height)
    }
}

/// The size of the first resource whose path equals `path`, if any.
pub open spec fn lookup_size(resources: Seq<Resource>, path: Seq<char>) -> Option<(i32, i32)>
    decreases resources.len(),
{
    if resources.len() == 0 {
        None
    } else if resources[0].path@ == path {
        Some((resources[0].width, resources[0].height))
    } else {
        lookup_size(resources.drop_first(), path)
    }
}

/// A found size comes from some resource of the table, so it inherits the
/// table's bounds.
proof fn lemma_lookup_size_nonneg(resources: Seq<Resource>, path: Seq<char>)
    requires
        forall|i: int|
            0 <= i < resources.len() ==> (#[trigger] resources[i]).width >= 0
                && resources[i].height >= 0,
    ensures
        match lookup_size(resources, path) {
            Some(sz) => sz.0 >= 0 && sz.1 >= 0,
            None => true,
        },
    decreases resources.len(),
{
    if resources.len() != 0 && resources[0].path@ != path {
        assert forall|i: int|
            0 <= i < resources.drop_first().len() implies (#[trigger] resources.drop_first()[i]).width
            >= 0 && resources.drop_first()[i].height >= 0 by {
            assert(resources.drop_first()[i] == resources[i + 1]);
        }
        lemma_lookup_size_nonneg(resources.drop_first(), path);
    }
}

/// Registering a resource makes its path found: after appending an entry
/// for `path` to the table, looking `path` up yields a size — the new
/// entry's, or an earlier entry's registered under the same path.
pub proof fn lemma_added_resource_found(
    pre: Seq<Resource>,
    post: Seq<Resource>,
    path: Seq<char>,
)
    requires
        post.len() == pre.len() + 1,
        post.subrange(0, pre.len() as int) == pre,
        post.last().path@ == path,
    ensures
        lookup_size(post, path) is Some,
    decreases pre.len(),
{
    if pre.len() == 0 {
        assert(post[0] == post.last());
    } else {
        assert(post[0] == pre[0]);
        if post[0].path@ != path {
            assert(post.drop_first().subrange(0, pre.drop_first().len() as int)
                =~= pre.drop_first());
            assert(post.drop_first().last() == post.last());
            lemma_added_resource_found(pre.drop_first(), post.drop_first(), path);
        }
    }
}

/// Whether the UTF-8 bytes of `path` contain an embedded terminator byte.
fn contains_nul(path: &str) -> (r: bool)
    ensures
        r == path.spec_bytes().contains(0u8),
{
    let bytes: &[u8] = path.as_bytes();
    let n: usize = bytes.len();
    let mut i: usize = 0;
    while i < n
        invariant
            n == bytes@.len(),
            bytes@ == path.spec_bytes(),
            i <= n,
            forall|j: int| 0 <= j < i ==> bytes@[j] != 0u8,
        decreases n - i,
    {
        if *slice_index_get(bytes, i) == 0u8 {
            assert(path.spec_bytes()[i as int] == 0u8);
            return true;
        }
        i = i + 1;
    }
    false
}

/// First-match search of the resource table.
fn find_entry(resources: &Vec<Resource>, path: &str) -> (r: Option<(i32, i32)>)
    ensures
        r == lookup_size(resources@, path@),
{
    let owned: String = path.to_owned();
    let n: usize = resources.len();
    let mut i: usize = 0;
    proof {
        assert(resources@.skip(0) =~= resources@);
    }
    while i < n
        invariant
            n == resources@.len(),
            i <= n,
            owned@ == path@,
            lookup_size(resources@, path@) == lookup_size(resources@.skip(i as int), path@),
        decreases n - i,
    {
        proof {
            assert(resources@.skip(i as int).len() == n - i);
            assert(resources@.skip(i as int)[0] == resources@[i as int]);
        }
        if resources[i].path == owned {
            return Some((resources[i].width, resources[i].height));
        }
        proof {
            assert(resources@.skip(i as int).drop_first() =~= resources@.skip(i + 1));
        }
        i = i + 1;
    }
    proof {
        assert(resources@.skip(n as int).len() == 0);
    }
    None
}

/// A connection to an in-memory graphics backend.
pub struct MemoryGraphics {
    conn: u64,
    resources: Vec<Resource>,
    live: Vec<u64>,
    frame: Vec<DrawCall>,
    next_id: u64,
}

impl View for MemoryGraphics {
    type V = GraphicsModel;

    closed spec fn view(&self) -> GraphicsModel {
        GraphicsModel {
            conn: self.conn,
            resources: self.resources@,
            live: self.live@,
            frame: self.frame@,
            next_id: self.next_id,
        }
    }
}

impl MemoryGraphics {
    #[verifier::type_invariant]
    spec fn well_formed(&self) -> bool {
        &&& self.live@.no_duplicates()
        &&& forall|i: int| 0 <= i < self.live@.len() ==> (#[trigger] self.live@[i]) < self.next_id
        &&& forall|i: int|
            0 <= i < self.resources@.len() ==> (#[trigger] self.resources@[i]).width >= 0
                && self.resources@[i].height >= 0
    }

    /// Opens a fresh connection with the given identity and no resources.
    pub fn new(conn: u64) -> (r: MemoryGraphics)
        ensures
            r@.conn == conn,
            r@.resources.len() == 0,
            r@.live.len() == 0,
            r@.frame.len() == 0,
            r@.next_id == 0,
    {
        MemoryGraphics {
            conn,
            resources: Vec::new(),
            live: Vec::new(),
            frame: Vec::new(),
            next_id: 0,
        }
    }

    /// Registers a bitmap of the given extent under `path`, making it
    /// loadable from this connection.
    pub fn add_resource(&mut self, path: &str, width: i32, height: i32)
        requires
            width >= 0,
            height >= 0,
        ensures
            final(self)@.conn == old(self)@.conn,
            final(self)@.live == old(self)@.live,
            final(self)@.frame == old(self)@.frame,
            final(self)@.next_id == old(self)@.next_id,
            final(self)@.resources.len() == old(self)@.resources.len() + 1,
            final(self)@.resources.subrange(0, old(self)@.resources.len() as int) == old(
                self,
            )@.resources,
            final(self)@.resources.last().path@ == path@,
            final(self)@.resources.last().width == width,
            final(self)@.resources.last().height == height,
    {
        proof {
            use_type_invariant(&*self);
        }
        let entry = Resource { path: path.to_owned(), width, height };
        let mut resources: Vec<Resource> = Vec::new();
        core::mem::swap(&mut resources, &mut self.resources);
        resources.push(entry);
        core::mem::swap(&mut resources, &mut self.resources);
        proof {
            assert(final(self)@.resources.subrange(0, old(self)@.resources.len() as int)
                =~= old(self)@.resources);
        }
    }

    /// How many handles are currently live on this connection.
    pub fn live_count(&self) -> (n: usize)
        ensures
            n == self@.live.len(),
    {
        self.live.len()
    }

    /// How many draw calls the connection has received.
    pub fn frame_len(&self) -> (n: usize)
        ensures
            n == self@.frame.len(),
    {
        self.frame.len()
    }

    /// The `i`-th recorded draw call, as the drawn handle's identifier, the
    /// top-left coordinate and the orientation, if `i` is in range.
    pub fn frame_call(&self, i: usize) -> (r: Option<(u64, (i32, i32), Flip)>)
        ensures
            match r {
                Some(call) => i < self@.frame.len() && call.0 == self@.frame[i as int].image
                    && call.1 == self@.frame[i as int].top_left && call.2 == self@.frame[
                    i as int
                ].flip,
                None => i >= self@.frame.len(),
            },
    {
        if i < self.frame.len() {
            let call = self.frame[i];
            Some((call.image, call.top_left, call.flip))
        } else {
            None
        }
    }

    /// Whether `image` is a live handle of this connection, decided at run
    /// time; agrees with the drawing capability's precondition.
    pub fn owns(&self, image: &Image) -> (b: bool)
        ensures
            b == self.can_draw(image),
    {
        if self.conn != image.conn() {
            return false;
        }
        let n: usize = self.live.len();
        let mut i: usize = 0;
        while i < n
            invariant
                n == self.live@.len(),
                i <= n,
                self.conn == image@.conn,
                forall|j: int| 0 <= j < i ==> self.live@[j] != image@.id,
            decreases n - i,
        {
            if self.live[i] == image.id() {
                proof {
                    assert(self.live@[i as int] == image@.id);
                    assert(self@.live.contains(image@.id));
                }
                return true;
            }
            i = i + 1;
        }
        false
    }

    /// Returns a live handle to the connection, releasing the native bitmap
    /// it stands for. Consumes the handle, so it can happen at most once per
    /// handle and nothing can touch the handle afterwards.
    pub fn release(&mut self, image: Image)
        requires
            old(self).can_draw(&image),
        ensures
            final(self)@.conn == old(self)@.conn,
            final(self)@.resources == old(self)@.resources,
            final(self)@.frame == old(self)@.frame,
            final(self)@.next_id == old(self)@.next_id,
            final(self)@.live.len() == old(self)@.live.len() - 1,
            !final(self)@.live.contains(image@.id),
            forall|other: u64|
                other != image@.id ==> (final(self)@.live.contains(other) == old(
                    self,
                )@.live.contains(other)),
    {
        proof {
            use_type_invariant(&*self);
        }
        let idx = index_of(&self.live, image.id());
        let mut live: Vec<u64> = Vec::new();
        core::mem::swap(&mut live, &mut self.live);
        live.remove(idx);
        core::mem::swap(&mut live, &mut self.live);
        proof {
            let l0 = old(self)@.live;
            let l1 = self@.live;
            l0.remove_ensures(idx as int);
            assert(l1 == l0.remove(idx as int));
            assert forall|j: int| 0 <= j < l1.len() implies l1[j] != image@.id by {
                if j < idx {
                    assert(l1[j] == l0[j]);
                } else {
                    assert(l1[j] == l0[j + 1]);
                }
            }
            assert forall|other: u64| other != image@.id implies (l1.contains(other)
                == l0.contains(other)) by {
                if l1.contains(other) {
                    let j = choose|j: int| 0 <= j < l1.len() && l1[j] == other;
                    if j < idx {
                        assert(l0[j] == other);
                    } else {
                        assert(l0[j + 1] == other);
                    }
                }
                if l0.contains(other) {
                    let j = choose|j: int| 0 <= j < l0.len() && l0[j] == other;
                    if j < idx {
                        assert(l1[j] == other);
                    } else if j > idx {
                        assert(l1[j - 1] == other);
                    }
                }
            }
        }
    }
}

/// The position of `id` in `live`, which must occur in it.
fn index_of(live: &Vec<u64>, id: u64) -> (r: usize)
    requires
        live@.contains(id),
    ensures
        r < live@.len(),
        live@[r as int] == id,
{
    let n: usize = live.len();
    let mut i: usize = 0;
    while i < n
        invariant
            n == live@.len(),
            i <= n,
            forall|j: int| 0 <= j < i ==> live@[j] != id,
        decreases n - i,
    {
        if live[i] == id {
            return i;
        }
        i = i + 1;
    }
    proof {
        let w = choose|j: int| 0 <= j < live@.len() && live@[j] == id;
        assert(live@[w] != id);
    }
    unreached()
}

impl LoadImage for MemoryGraphics {
    type Image = Image;

    type Error = ImageNotFoundError;

    open spec fn can_load(&self, path: &str) -> bool {
        &&& !path.spec_bytes().contains(0u8)
        &&& lookup_size(self@.resources, path@) is Some
        &&& self@.next_id < u64::MAX
    }

    open spec fn load_ok(&self, post: &Self, path: &str, image: &Image) -> bool {
        &&& image@.conn == self@.conn
        &&& image@.id == self@.next_id
        &&& !self@.live.contains(image@.id)
        &&& Some((image@.width, image@.height)) == lookup_size(self@.resources, path@)
        &&& post@.conn == self@.conn
        &&& post@.resources == self@.resources
        &&& post@.frame == self@.frame
        &&& post@.live == self@.live.push(image@.id)
        &&& post@.next_id == self@.next_id + 1
    }

    open spec fn load_err(&self, post: &Self, path: &str, err: &ImageNotFoundError) -> bool {
        &&& err.0@ == path@
        &&& post@ == self@
    }

    fn load_from_path(&mut self, path: &str) -> (r: Result<Image, ImageNotFoundError>) {
        proof {
            use_type_invariant(&*self);
        }
        if contains_nul(path) {
            return Err(ImageNotFoundError(path.to_owned()));
        }
        if self.next_id == u64::MAX {
            return Err(ImageNotFoundError(path.to_owned()));
        }
        match find_entry(&self.resources, path) {
            None => Err(ImageNotFoundError(path.to_owned())),
            Some((width, height)) => {
                proof {
                    lemma_lookup_size_nonneg(self.resources@, path@);
                }
                let id = self.next_id;
                self.next_id = id + 1;
                let mut live: Vec<u64> = Vec::new();
                core::mem::swap(&mut live, &mut self.live);
                live.push(id);
                core::mem::swap(&mut live, &mut self.live);
                proof {
                    let l0 = old(self)@.live;
                    let l1 = self@.live;
                    assert(l1 == l0.push(id));
                    assert(!l0.contains(id));
                    assert forall|i: int, j: int|
                        0 <= i < l1.len() && 0 <= j < l1.len() && i != j implies l1[i] != l1[
                        j
                    ] by {
                        if i < l0.len() && j < l0.len() {
                            assert(l0[i] != l0[j]);
                        } else if i < l0.len() {
                            assert(l1[j] == id && l0[i] != id);
                        } else {
                            assert(l1[i] == id && l0[j] != id);
                        }
                    }
                }
                Ok(Image { conn: self.conn, id, width, height })
            },
        }
    }
}

impl DrawImage<Image> for MemoryGraphics {
    open spec fn can_draw(&self, image: &Image) -> bool {
        &&& image@.conn == self@.conn
        &&& self@.live.contains(image@.id)
    }

    open spec fn drawn(&self, post: &Self, image: &Image, top_left: (i32, i32), flip: Flip) -> bool {
        &&& post@.conn == self@.conn
        &&& post@.resources == self@.resources
        &&& post@.live == self@.live
        &&& post@.next_id == self@.next_id
        &&& post@.frame == self@.frame.push(
            DrawCall { image: image@.id, top_left, flip },
        )
    }

    fn draw_with_flip(&mut self, image: &Image, top_left: (i32, i32), flip: Flip) {
        proof {
            use_type_invariant(&*self);
        }
        let call = DrawCall { image: image.id(), top_left, flip };
        let mut frame: Vec<DrawCall> = Vec::new();
        core::mem::swap(&mut frame, &mut self.frame);
        frame.push(call);
        core::mem::swap(&mut frame, &mut self.frame);
    }
}

/// A handle returned by a successful load is immediately usable: it can be
/// drawn, its size can be queried, and it can be released, each of which the
/// drawing capability's precondition gates on.
pub proof fn lemma_loaded_handle_usable(
    pre: &MemoryGraphics,
    post: &MemoryGraphics,
    path: &str,
    image: &Image,
)
    requires
        pre.load_ok(post, path, image),
    ensures
        post.can_draw(image),
{
    assert(post@.live.last() == image@.id);
}

/// Drawing never revokes a handle: any handle that could be drawn or
/// released before a draw call still can be afterwards.
pub proof fn lemma_draw_preserves_handles(
    pre: &MemoryGraphics,
    post: &MemoryGraphics,
    drawn_image: &Image,
    other: &Image,
    top_left: (i32, i32),
    flip: Flip,
)
    requires
        pre.drawn(post, drawn_image, top_left, flip),
        pre.can_draw(other),
    ensures
        post.can_draw(other),
{
}

} // verus!
