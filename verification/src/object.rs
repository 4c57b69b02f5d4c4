//! The object manager: a register of drawable objects given as separate
//! lists of positions, colors and texture coordinates, with a life that starts
//! at initialization and ends at termination.

use vstd::prelude::*;
use crate::gpu::{
    call_views, lemma_call_views_add, BufferTarget, Capability, GpuCall, GpuCallView,
};
use crate::material::{Material, MaterialView};
use crate::render::{
    entry_views, frame_all, layout_calls, lemma_vertex_layout_is_packed, objects_frame_calls,
    objects_release_calls, release_all, Entry, ObjectNames, ObjectView, Renderer, FOUR_BYTES,
};
use crate::scalar::Scalar;
use crate::transform::{Factor, Transform};

verus! {

/// Where an object manager stands in its life.
#[derive(Clone, Copy, Debug, PartialEq, Eq, Structural)]
pub enum Lifecycle {
    Uninitialized,
    Initialized,
    Terminated,
}

/// The numbers of one corner: position, color, texture coordinates.
pub const CORNER_DATA_SIZE: usize = 9;

/// The attribute slots of a corner.
pub const CORNER_SLOTS: u32 = 3;

/// The bit pattern of three tenths, the gray of the background.
pub const BACKGROUND_GRAY_BITS: u32 = 0x3E99_999A;

/// The bit pattern of one, the opacity of the background.
pub const BACKGROUND_ALPHA_BITS: u32 = 0x3F80_0000;

/// One corner as it lies in a vertex buffer.
pub open spec fn corner_words(
    position: (Scalar, Scalar, Scalar),
    color: (Scalar, Scalar, Scalar, Scalar),
    tex_coords: (Scalar, Scalar),
) -> Seq<u32> {
    seq![
        position.0.bits,
        position.1.bits,
        position.2.bits,
        color.0.bits,
        color.1.bits,
        color.2.bits,
        color.3.bits,
        tex_coords.0.bits,
        tex_coords.1.bits,
    ]
}

/// The corners as they lie in a vertex buffer: one corner for every position,
/// with the color and the texture coordinates of the same rank; word `k` is
/// word `k % 9` of corner `k / 9`.
pub open spec fn interleaved_words(
    positions: Seq<(Scalar, Scalar, Scalar)>,
    colors: Seq<(Scalar, Scalar, Scalar, Scalar)>,
    tex_coords: Seq<(Scalar, Scalar)>,
) -> Seq<u32> {
    Seq::new(
        9 * positions.len(),
        |k: int| corner_words(positions[k / 9], colors[k / 9], tex_coords[k / 9])[k % 9],
    )
}

/// Whether `vertex_count` vertices can share `positions` positions evenly.
pub open spec fn divides_evenly(vertex_count: u32, positions: nat) -> bool {
    vertex_count > 0 && positions % (vertex_count as nat) == 0
}

/// The bytes from one vertex to the next: four for each number of a vertex's
/// share of the buffer.
pub open spec fn corner_stride(vertex_count: u32, positions: nat) -> int {
    4 * ((9 * positions as int) / (vertex_count as int))
}

/// The record of a new object.
pub open spec fn managed_object(
    indices: Seq<u32>,
    positions: nat,
    material: MaterialView,
    names: ObjectNames,
) -> ObjectView {
    ObjectView {
        vertex_array: names.vertex_array,
        vertex_buffer: names.vertex_buffer,
        index_buffer: names.index_buffer,
        count: indices.len() as i32,
        vertex_capacity: 9 * positions,
        index_capacity: indices.len(),
        material,
        pending: Seq::empty(),
    }
}

/// The calls that set a new object up: bind its vertex array, upload the
/// interleaved corners, describe the three attribute slots, upload the
/// indices.
pub open spec fn managed_create_calls(
    vertex_count: u32,
    positions: Seq<(Scalar, Scalar, Scalar)>,
    colors: Seq<(Scalar, Scalar, Scalar, Scalar)>,
    tex_coords: Seq<(Scalar, Scalar)>,
    indices: Seq<u32>,
    names: ObjectNames,
) -> Seq<GpuCallView> {
    seq![
        GpuCallView::BindVertexArray(names.vertex_array),
        GpuCallView::BindBuffer(BufferTarget::Array, names.vertex_buffer),
        GpuCallView::BufferData(
            BufferTarget::Array,
            interleaved_words(positions, colors, tex_coords),
        ),
    ] + layout_calls(CORNER_SLOTS as int, corner_stride(vertex_count, positions.len()) as i32)
        + seq![
        GpuCallView::BindBuffer(BufferTarget::ElementArray, names.index_buffer),
        GpuCallView::BufferData(BufferTarget::ElementArray, indices),
    ]
}

/// What an object manager is, mathematically.
pub struct ObjectManagerView {
    pub state: Lifecycle,
    /// The registered objects; an object's identifier is its position.
    pub objects: Seq<ObjectView>,
    /// The transform each object was registered with.
    pub transforms: Seq<Seq<Factor>>,
}

impl ObjectManagerView {
    /// Every object has its transform and no uniform update waiting; nothing
    /// is registered before initialization; and while the manager is
    /// initialized, none of its programs has been released.
    pub open spec fn wf(self) -> bool {
        &&& self.transforms.len() == self.objects.len()
        &&& forall|i: int|
            0 <= i < self.objects.len() ==> (#[trigger] self.objects[i]).pending.len() == 0
        &&& self.state == Lifecycle::Uninitialized ==> self.objects.len() == 0
        &&& self.state == Lifecycle::Initialized ==> forall|i: int|
            0 <= i < self.objects.len() ==> !(#[trigger] self.objects[i]).material.deleted
    }

    /// The manager after initialization: a first one starts its life, a later
    /// one changes nothing.
    pub open spec fn initialized(self) -> ObjectManagerView {
        if self.state == Lifecycle::Uninitialized {
            ObjectManagerView { state: Lifecycle::Initialized, ..self }
        } else {
            self
        }
    }

    /// The calls of an initialization: multisampling and depth testing are
    /// switched on by the first, nothing is asked for by a later one.
    pub open spec fn init_calls(self) -> Seq<GpuCallView> {
        if self.state == Lifecycle::Uninitialized {
            seq![
                GpuCallView::Enable(Capability::Multisample),
                GpuCallView::Enable(Capability::DepthTest),
            ]
        } else {
            Seq::empty()
        }
    }

    /// The identifier the next object will get.
    pub open spec fn next_id(self) -> nat {
        self.objects.len()
    }

    /// The manager with one more object, registered last.
    pub open spec fn created(
        self,
        object: ObjectView,
        transform: Seq<Factor>,
    ) -> ObjectManagerView {
        ObjectManagerView {
            objects: self.objects.push(object),
            transforms: self.transforms.push(transform),
            ..self
        }
    }

    /// The calls of one frame: clear to the gray background, then every
    /// object in the order of registration.
    pub open spec fn frame_calls(self) -> Seq<GpuCallView> {
        seq![
            GpuCallView::ClearColor(
                Scalar { bits: BACKGROUND_GRAY_BITS },
                Scalar { bits: BACKGROUND_GRAY_BITS },
                Scalar { bits: BACKGROUND_GRAY_BITS },
                Scalar { bits: BACKGROUND_ALPHA_BITS },
            ),
            GpuCallView::Clear,
        ] + objects_frame_calls(self.objects)
    }

    /// The manager once everything is released.
    pub open spec fn released(self) -> ObjectManagerView {
        ObjectManagerView {
            state: Lifecycle::Terminated,
            objects: self.objects.map_values(|o: ObjectView| o.released()),
            ..self
        }
    }
}

/// A register of drawable objects that has to be initialized before use.
pub struct ObjectManager {
    state: Lifecycle,
    objects: Vec<Entry>,
    transforms: Vec<Transform>,
}

/// The factors of a list of transforms.
pub open spec fn transform_views(transforms: Seq<Transform>) -> Seq<Seq<Factor>> {
    transforms.map_values(|t: Transform| t@)
}

impl View for ObjectManager {
    type V = ObjectManagerView;

    closed spec fn view(&self) -> ObjectManagerView {
        ObjectManagerView {
            state: self.state,
            objects: entry_views(self.objects@),
            transforms: transform_views(self.transforms@),
        }
    }
}

/// Interleaves the corners for a vertex buffer.
fn interleave(
    positions: &Vec<(Scalar, Scalar, Scalar)>,
    colors: &Vec<(Scalar, Scalar, Scalar, Scalar)>,
    tex_coords: &Vec<(Scalar, Scalar)>,
) -> (words: Vec<u32>)
    requires
        colors@.len() >= positions@.len(),
        tex_coords@.len() >= positions@.len(),
    ensures
        words@ == interleaved_words(positions@, colors@, tex_coords@),
{
    let mut words: Vec<u32> = Vec::new();
    let mut i: usize = 0;
    while i < positions.len()
        invariant
            i <= positions.len(),
            colors@.len() >= positions@.len(),
            tex_coords@.len() >= positions@.len(),
            words@.len() == 9 * i,
            forall|k: int|
                0 <= k < 9 * i ==> words@[k] == #[trigger] interleaved_words(
                    positions@,
                    colors@,
                    tex_coords@,
                )[k],
        decreases positions.len() - i,
    {
        let ghost before = words@;
        let ghost corner = corner_words(
            positions@[i as int],
            colors@[i as int],
            tex_coords@[i as int],
        );
        words.push(positions[i].0.bits);
        words.push(positions[i].1.bits);
        words.push(positions[i].2.bits);
        words.push(colors[i].0.bits);
        words.push(colors[i].1.bits);
        words.push(colors[i].2.bits);
        words.push(colors[i].3.bits);
        words.push(tex_coords[i].0.bits);
        words.push(tex_coords[i].1.bits);
        proof {
            assert(words@ =~= before + corner);
        }
        i += 1;
    }
    assert(words@ =~= interleaved_words(positions@, colors@, tex_coords@));
    words
}

impl ObjectManager {
    /// A manager that has yet to be initialized.
    pub fn new() -> (m: ObjectManager)
        ensures
            m@ == (ObjectManagerView {
                state: Lifecycle::Uninitialized,
                objects: Seq::empty(),
                transforms: Seq::empty(),
            }),
            m@.wf(),
    {
        let m = ObjectManager {
            state: Lifecycle::Uninitialized,
            objects: Vec::new(),
            transforms: Vec::new(),
        };
        assert(m@.objects =~= Seq::empty());
        assert(m@.transforms =~= Seq::empty());
        m
    }

    /// Where the manager stands in its life.
    pub fn state(&self) -> (r: Lifecycle)
        ensures
            r == self@.state,
    {
        self.state
    }

    /// The number of objects registered so far, which is also the identifier
    /// the next one will get.
    pub fn object_count(&self) -> (n: usize)
        ensures
            n == self@.next_id(),
    {
        self.objects.len()
    }

    /// The transform an object was registered with.
    pub fn transform(&self, object: u32) -> (t: &Transform)
        requires
            self@.wf(),
            object < self@.objects.len(),
        ensures
            t@ == self@.transforms[object as int],
    {
        &self.transforms[object as usize]
    }

    /// Starts the manager's life and gives the calls that switch
    /// multisampling and depth testing on. Only the first initialization does
    /// anything.
    pub fn init(&mut self) -> (calls: Vec<GpuCall>)
        ensures
            final(self)@ == old(self)@.initialized(),
            old(self)@.wf() ==> final(self)@.wf(),
            call_views(calls@) == old(self)@.init_calls(),
    {
        let mut calls: Vec<GpuCall> = Vec::new();
        if self.state == Lifecycle::Uninitialized {
            calls.push(GpuCall::Enable(Capability::Multisample));
            calls.push(GpuCall::Enable(Capability::DepthTest));
            self.state = Lifecycle::Initialized;
        }
        assert(call_views(calls@) =~= old(self)@.init_calls());
        calls
    }

    /// Whether `vertex_count` vertices can share `positions` positions
    /// evenly: the test a caller makes before it registers an object.
    pub fn accepts(vertex_count: u32, positions: usize) -> (r: bool)
        ensures
            r == divides_evenly(vertex_count, positions as nat),
    {
        vertex_count > 0 && positions % (vertex_count as usize) == 0
    }

    /// Registers an object under the fresh names given and returns its
    /// identifier with the calls that set it up.
    ///
    /// The identifier is the number of objects registered before, so it grows
    /// by one with every object and is never given twice.
    pub fn create_object(
        &mut self,
        vertex_count: u32,
        positions: Vec<(Scalar, Scalar, Scalar)>,
        colors: Vec<(Scalar, Scalar, Scalar, Scalar)>,
        tex_coords: Vec<(Scalar, Scalar)>,
        indices: Vec<u32>,
        material: Material,
        transform: Transform,
        names: ObjectNames,
    ) -> (r: (u32, Vec<GpuCall>))
        requires
            old(self)@.wf(),
            old(self)@.state == Lifecycle::Initialized,
            divides_evenly(vertex_count, positions@.len()),
            colors@.len() >= positions@.len(),
            tex_coords@.len() >= positions@.len(),
            corner_stride(vertex_count, positions@.len()) <= i32::MAX,
            indices@.len() <= i32::MAX,
            names.index_buffer != 0,
            !material@.deleted,
            old(self)@.objects.len() < u32::MAX,
        ensures
            final(self)@ == old(self)@.created(
                managed_object(indices@, positions@.len(), material@, names),
                transform@,
            ),
            final(self)@.wf(),
            r.0 == old(self)@.next_id(),
            call_views(r.1@) == managed_create_calls(
                vertex_count,
                positions@,
                colors@,
                tex_coords@,
                indices@,
                names,
            ),
    {
        let buffer_data = interleave(&positions, &colors, &tex_coords);
        let vertex_capacity = buffer_data.len();
        let share: usize = buffer_data.len() / (vertex_count as usize);
        let stride: i32 = (FOUR_BYTES * share) as i32;
        let mut calls: Vec<GpuCall> = Vec::new();
        calls.push(GpuCall::BindVertexArray(names.vertex_array));
        calls.push(GpuCall::BindBuffer(BufferTarget::Array, names.vertex_buffer));
        calls.push(GpuCall::BufferData(BufferTarget::Array, buffer_data));
        let ghost uploaded = calls@;
        let mut position = Renderer::enable_vertex_attrib_ptr(0, 3, stride, 0);
        let mut color = Renderer::enable_vertex_attrib_ptr(1, 4, stride, 12);
        let mut tex = Renderer::enable_vertex_attrib_ptr(2, 2, stride, 28);
        let ghost layout = position@ + color@ + tex@;
        proof {
            reveal_with_fuel(layout_calls, 4);
            lemma_vertex_layout_is_packed();
            lemma_call_views_add(position@, color@);
            lemma_call_views_add(position@ + color@, tex@);
            assert(call_views(layout) =~= layout_calls(CORNER_SLOTS as int, stride));
            lemma_call_views_add(uploaded, layout);
        }
        calls.append(&mut position);
        calls.append(&mut color);
        calls.append(&mut tex);
        assert(calls@ =~= uploaded + layout);
        let ghost described = calls@;
        let index_size: i32 = indices.len() as i32;
        let index_capacity = indices.len();
        calls.push(GpuCall::BindBuffer(BufferTarget::ElementArray, names.index_buffer));
        calls.push(GpuCall::BufferData(BufferTarget::ElementArray, indices));
        proof {
            assert(call_views(uploaded) =~= seq![
                GpuCallView::BindVertexArray(names.vertex_array),
                GpuCallView::BindBuffer(BufferTarget::Array, names.vertex_buffer),
                GpuCallView::BufferData(
                    BufferTarget::Array,
                    interleaved_words(positions@, colors@, tex_coords@),
                ),
            ]);
            assert(call_views(calls@) =~= call_views(described) + seq![
                GpuCallView::BindBuffer(BufferTarget::ElementArray, names.index_buffer),
                GpuCallView::BufferData(BufferTarget::ElementArray, indices@),
            ]);
        }
        let entry = Entry::new(names, index_size, vertex_capacity, index_capacity, material);
        self.objects.push(entry);
        self.transforms.push(transform);
        proof {
            assert(self@.objects =~= old(self)@.objects.push(entry@));
            assert(self@.transforms =~= old(self)@.transforms.push(transform@));
        }
        ((self.objects.len() - 1) as u32, calls)
    }

    /// The calls of one frame: clear to the gray background, then for every
    /// object, in the order of registration, bind, use the material and draw.
    pub fn render(&mut self) -> (calls: Vec<GpuCall>)
        requires
            old(self)@.wf(),
            old(self)@.state == Lifecycle::Initialized,
        ensures
            final(self)@ == old(self)@,
            call_views(calls@) == old(self)@.frame_calls(),
    {
        let mut calls: Vec<GpuCall> = Vec::new();
        calls.push(
            GpuCall::ClearColor(
                Scalar { bits: BACKGROUND_GRAY_BITS },
                Scalar { bits: BACKGROUND_GRAY_BITS },
                Scalar { bits: BACKGROUND_GRAY_BITS },
                Scalar { bits: BACKGROUND_ALPHA_BITS },
            ),
        );
        calls.push(GpuCall::Clear);
        proof {
            let before = old(self)@.objects;
            assert forall|i: int| 0 <= i < self.objects@.len() implies !(#[trigger] entry_views(
                self.objects@,
            )[i]).material.deleted by {
                assert(!before[i].material.deleted);
            }
        }
        let mut frames = frame_all(&mut self.objects);
        proof {
            let before = old(self)@.objects;
            assert forall|i: int| 0 <= i < self@.objects.len() implies (#[trigger] self@.objects[i])
                == before[i] by {
                assert(before[i].pending =~= Seq::empty());
            }
            assert(self@.objects =~= before);
            lemma_call_views_add(calls@, frames@);
            assert(call_views(calls@) =~= seq![
                GpuCallView::ClearColor(
                    Scalar { bits: BACKGROUND_GRAY_BITS },
                    Scalar { bits: BACKGROUND_GRAY_BITS },
                    Scalar { bits: BACKGROUND_GRAY_BITS },
                    Scalar { bits: BACKGROUND_ALPHA_BITS },
                ),
                GpuCallView::Clear,
            ]);
        }
        calls.append(&mut frames);
        calls
    }

    /// The call that sets the viewport to the rectangle from the origin to
    /// `x`, `y`.
    pub fn resize_viewport(&mut self, x: i32, y: i32) -> (calls: Vec<GpuCall>)
        requires
            old(self)@.state == Lifecycle::Initialized,
        ensures
            final(self)@ == old(self)@,
            call_views(calls@) == seq![GpuCallView::Viewport { width: x, height: y }],
    {
        let mut calls: Vec<GpuCall> = Vec::new();
        calls.push(GpuCall::Viewport { width: x, height: y });
        assert(call_views(calls@) =~= seq![GpuCallView::Viewport { width: x, height: y }]);
        calls
    }

    /// Ends the manager's life and gives the calls that release, object after
    /// object in the order of registration, its vertex array, its two buffers
    /// and its program.
    pub fn terminate(&mut self) -> (calls: Vec<GpuCall>)
        requires
            old(self)@.wf(),
            old(self)@.state == Lifecycle::Initialized,
        ensures
            final(self)@ == old(self)@.released(),
            final(self)@.wf(),
            call_views(calls@) == objects_release_calls(old(self)@.objects),
    {
        proof {
            let before = old(self)@.objects;
            assert forall|i: int| 0 <= i < self.objects@.len() implies !(#[trigger] entry_views(
                self.objects@,
            )[i]).material.deleted by {
                assert(!before[i].material.deleted);
            }
        }
        let calls = release_all(&mut self.objects);
        self.state = Lifecycle::Terminated;
        calls
    }
}

/// Identifiers are positions in a register that only grows: a new object gets
/// the identifier after the last one given, which no earlier object has, the
/// object after it gets the next, and every earlier object keeps its
/// identifier and its record.
pub proof fn lemma_identifiers_increase(
    manager: ObjectManagerView,
    object: ObjectView,
    transform: Seq<Factor>,
)
    ensures
        ({
            let after = manager.created(object, transform);
            &&& after.next_id() == manager.next_id() + 1
            &&& after.objects[manager.next_id() as int] == object
            &&& forall|id: int|
                0 <= id < manager.objects.len() ==> id != manager.next_id()
                    && #[trigger] after.objects[id] == manager.objects[id]
            &&& manager.wf() && manager.state == Lifecycle::Initialized
                && !object.material.deleted && object.pending.len() == 0 ==> after.wf()
        }),
{
}

} // verus!
