//! The renderer: the register of drawable objects, the uniform updates
//! queued for each, and the calls of every frame.

use vstd::prelude::*;
use vstd::string::StringExecFns;
use crate::gpu::{
    call_views, lemma_call_views_add, reply_views, BufferTarget, Capability, CullMode, GpuCall,
    GpuCallView, GpuReply, GpuReplyView, UniformValue,
};
use crate::material::{
    attribute_views, lemma_uniform_calls_push, set_attribute, uniform_calls, AttributeType,
    Material, MaterialView,
};
use crate::scalar::Scalar;

verus! {

/// A severity of debug message that the hook is asked to drop.
#[derive(Clone, Copy, Debug, PartialEq, Eq, Structural)]
pub enum DebugFilter {
    /// Drops nothing.
    Nothing,
    /// Drops notifications.
    Info,
    Low,
    Medium,
    High,
}

/// Which faces the pipeline discards.
#[derive(Clone, Copy, Debug, PartialEq, Eq, Structural)]
pub enum FaceCulling {
    /// Culling stays off.
    Neither,
    Front,
    Back,
    FrontAndBack,
}

/// How grave the driver says a debug message is.
#[derive(Clone, Copy, Debug, PartialEq, Eq, Structural)]
pub enum DebugSeverity {
    Notification,
    Low,
    Medium,
    High,
    /// A severity the driver reported that is none of the four.
    Unknown,
}

impl DebugSeverity {
    /// The filter that drops messages of this severity, if there is one.
    pub open spec fn filter(self) -> Option<DebugFilter> {
        match self {
            DebugSeverity::Notification => Some(DebugFilter::Info),
            DebugSeverity::Low => Some(DebugFilter::Low),
            DebugSeverity::Medium => Some(DebugFilter::Medium),
            DebugSeverity::High => Some(DebugFilter::High),
            DebugSeverity::Unknown => None,
        }
    }

    /// The word a message of this severity is printed with.
    pub open spec fn label(self) -> Seq<char> {
        match self {
            DebugSeverity::Notification => "Notification"@,
            DebugSeverity::Low => "Low"@,
            DebugSeverity::Medium => "Medium"@,
            DebugSeverity::High => "High"@,
            DebugSeverity::Unknown => ""@,
        }
    }
}

/// Whether a message of the given severity is dropped under the given
/// filters: one of them has to name that severity.
pub open spec fn suppressed(severity: DebugSeverity, filters: Seq<DebugFilter>) -> bool {
    match severity.filter() {
        Some(f) => filters.contains(f),
        None => false,
    }
}

/// The line printed for a debug message.
pub open spec fn debug_line(severity: DebugSeverity, message: Seq<char>) -> Seq<char> {
    "GL CALLBACK (severity: "@ + severity.label() + "): "@ + message
}

/// Whether `filters` holds `wanted`.
fn has_filter(filters: &Vec<DebugFilter>, wanted: DebugFilter) -> (found: bool)
    ensures
        found == filters@.contains(wanted),
{
    let mut i: usize = 0;
    while i < filters.len()
        invariant
            i <= filters.len(),
            forall|k: int| 0 <= k < i ==> filters@[k] != wanted,
        decreases filters.len() - i,
    {
        if filters[i] == wanted {
            return true;
        }
        i += 1;
    }
    false
}

/// Decides what becomes of a debug message from the driver: the line to
/// print, or nothing when a filter names the message's severity.
pub fn message_callback(
    severity: DebugSeverity,
    message: &str,
    filters: &Vec<DebugFilter>,
) -> (line: Option<String>)
    ensures
        line is None <==> suppressed(severity, filters@),
        line matches Some(text) ==> text@ == debug_line(severity, message@),
{
    let (label, is_filtered) = match severity {
        DebugSeverity::Notification => ("Notification", has_filter(filters, DebugFilter::Info)),
        DebugSeverity::Low => ("Low", has_filter(filters, DebugFilter::Low)),
        DebugSeverity::Medium => ("Medium", has_filter(filters, DebugFilter::Medium)),
        DebugSeverity::High => ("High", has_filter(filters, DebugFilter::High)),
        DebugSeverity::Unknown => ("", false),
    };
    if is_filtered {
        return None;
    }
    let mut text = String::from_str("GL CALLBACK (severity: ");
    text.append(label);
    text.append("): ");
    text.append(message);
    Some(text)
}

/// Where a vertex is: x, y, z.
pub type Position = (Scalar, Scalar, Scalar);

/// Red, green, blue, alpha.
pub type Color = (Scalar, Scalar, Scalar, Scalar);

/// Where a vertex samples its texture: u, v.
pub type TexCoords = (Scalar, Scalar);

/// The surface direction at a vertex: x, y, z.
pub type Normals = (Scalar, Scalar, Scalar);

/// Which texture a vertex samples.
pub type TextureID = Scalar;

/// The numbers in one vertex.
pub const VERTEX_DATA_SIZE: usize = 13;

/// The bytes in one number.
pub const FOUR_BYTES: usize = 4;

/// The bytes from one vertex to the next.
pub const VERTEX_STRIDE: i32 = 52;

/// The vertex attribute slots.
pub const VERTEX_SLOTS: u32 = 5;

/// One corner of a drawable object: thirteen numbers, tightly packed in the
/// order of the fields.
#[derive(Clone, Copy, Debug, PartialEq, Eq)]
pub struct Vertex {
    pub position: Position,
    pub color: Color,
    pub tex_coords: TexCoords,
    pub normals: Normals,
    pub texture_id: TextureID,
}

impl Vertex {
    /// The vertex as it lies in a vertex buffer: the bit patterns of its
    /// numbers, field after field.
    pub open spec fn words(self) -> Seq<u32> {
        seq![
            self.position.0.bits,
            self.position.1.bits,
            self.position.2.bits,
            self.color.0.bits,
            self.color.1.bits,
            self.color.2.bits,
            self.color.3.bits,
            self.tex_coords.0.bits,
            self.tex_coords.1.bits,
            self.normals.0.bits,
            self.normals.1.bits,
            self.normals.2.bits,
            self.texture_id.bits,
        ]
    }
}

/// A run of vertices as it lies in a vertex buffer: word `k` is word `k % 13`
/// of vertex `k / 13`.
pub open spec fn vertex_words(vertices: Seq<Vertex>) -> Seq<u32> {
    Seq::new(13 * vertices.len(), |k: int| vertices[k / 13].words()[k % 13])
}

/// How many numbers the attribute in a slot has: position, color, texture
/// coordinates, normals, texture id.
pub open spec fn attribute_size(slot: int) -> int {
    if slot == 0 {
        3
    } else if slot == 1 {
        4
    } else if slot == 2 {
        2
    } else if slot == 3 {
        3
    } else {
        1
    }
}

/// The byte at which the attribute in a slot starts within a vertex: right
/// after the attributes of the slots before it.
pub open spec fn attribute_offset(slot: int) -> int
    decreases slot,
{
    if slot <= 0 {
        0
    } else {
        attribute_offset(slot - 1) + 4 * attribute_size(slot - 1)
    }
}

/// The calls that switch a slot on and describe it.
pub open spec fn attribute_calls(index: u32, size: i32, stride: i32, offset: usize) -> Seq<
    GpuCallView,
> {
    seq![
        GpuCallView::EnableVertexAttribArray(index),
        GpuCallView::VertexAttribPointer { index, size, stride, offset },
    ]
}

/// The calls that describe slots `0..slots` of a vertex layout whose vertices
/// lie `stride` bytes apart.
pub open spec fn layout_calls(slots: int, stride: i32) -> Seq<GpuCallView>
    decreases slots,
{
    if slots <= 0 {
        Seq::empty()
    } else {
        layout_calls(slots - 1, stride) + attribute_calls(
            (slots - 1) as u32,
            attribute_size(slots - 1) as i32,
            stride,
            attribute_offset(slots - 1) as usize,
        )
    }
}

/// The five attributes fill the vertex exactly: each starts where the one
/// before it ends, and the last ends at the stride, which is thirteen numbers
/// of four bytes.
pub proof fn lemma_vertex_layout_is_packed()
    ensures
        attribute_offset(0) == 0,
        attribute_offset(1) == 12,
        attribute_offset(2) == 28,
        attribute_offset(3) == 36,
        attribute_offset(4) == 48,
        attribute_offset(VERTEX_SLOTS as int) == VERTEX_STRIDE,
        VERTEX_STRIDE == VERTEX_DATA_SIZE * FOUR_BYTES,
        forall|v: Vertex| #[trigger] v.words().len() == VERTEX_DATA_SIZE,
{
    reveal_with_fuel(attribute_offset, 6);
}

/// Packs vertices for a vertex buffer.
pub fn pack_vertices(vertices: &Vec<Vertex>) -> (words: Vec<u32>)
    ensures
        words@ == vertex_words(vertices@),
{
    let mut words: Vec<u32> = Vec::new();
    let mut i: usize = 0;
    while i < vertices.len()
        invariant
            i <= vertices.len(),
            words@ == vertex_words(vertices@.take(i as int)),
        decreases vertices.len() - i,
    {
        let v = &vertices[i];
        let ghost before = words@;
        words.push(v.position.0.bits);
        words.push(v.position.1.bits);
        words.push(v.position.2.bits);
        words.push(v.color.0.bits);
        words.push(v.color.1.bits);
        words.push(v.color.2.bits);
        words.push(v.color.3.bits);
        words.push(v.tex_coords.0.bits);
        words.push(v.tex_coords.1.bits);
        words.push(v.normals.0.bits);
        words.push(v.normals.1.bits);
        words.push(v.normals.2.bits);
        words.push(v.texture_id.bits);
        proof {
            assert(words@ =~= before + v.words());
            assert(vertex_words(vertices@.take(i + 1)) =~= vertex_words(vertices@.take(i as int))
                + v.words());
        }
        i += 1;
    }
    assert(vertices@.take(i as int) =~= vertices@);
    words
}

/// The fresh GPU names that a new object is registered under.
#[derive(Clone, Copy, Debug, PartialEq, Eq, Structural)]
pub struct ObjectNames {
    pub vertex_array: u32,
    /// Read only when the object has vertex data.
    pub vertex_buffer: u32,
    /// Read only when the object has indices.
    pub index_buffer: u32,
}

impl ObjectNames {
    /// How many names a new object needs: one for its vertex array, and one
    /// for each of the two buffers it has data for.
    pub open spec fn needed(has_vertices: bool, has_indices: bool) -> int {
        1 + (if has_vertices {
            1int
        } else {
            0int
        }) + (if has_indices {
            1int
        } else {
            0int
        })
    }

    /// The calls that ask the driver for the names of a new object: a vertex
    /// array, then a buffer for the vertices if there are any, then a buffer
    /// for the indices if there are any.
    pub open spec fn request_calls(has_vertices: bool, has_indices: bool) -> Seq<GpuCallView> {
        seq![GpuCallView::GenVertexArray] + (if has_vertices {
            seq![GpuCallView::GenBuffer]
        } else {
            Seq::empty()
        }) + (if has_indices {
            seq![GpuCallView::GenBuffer]
        } else {
            Seq::empty()
        })
    }

    /// Whether the answers are one name for each call asked, none of them
    /// zero.
    pub open spec fn answers_fit(
        has_vertices: bool,
        has_indices: bool,
        replies: Seq<GpuReplyView>,
    ) -> bool {
        &&& replies.len() == Self::needed(has_vertices, has_indices)
        &&& forall|i: int|
            0 <= i < replies.len() ==> (#[trigger] replies[i] matches GpuReplyView::Name(n)
                && n != 0)
    }

    /// The names in the answers, in the order they were asked for; zero for a
    /// buffer that was not asked for.
    pub open spec fn answered(
        has_vertices: bool,
        has_indices: bool,
        replies: Seq<GpuReplyView>,
    ) -> ObjectNames {
        ObjectNames {
            vertex_array: replies[0]->Name_0,
            vertex_buffer: if has_vertices {
                replies[1]->Name_0
            } else {
                0
            },
            index_buffer: if has_indices {
                replies[Self::needed(has_vertices, has_indices) - 1]->Name_0
            } else {
                0
            },
        }
    }

    /// The calls that ask the driver for the names of a new object.
    pub fn requests(has_vertices: bool, has_indices: bool) -> (calls: Vec<GpuCall>)
        ensures
            call_views(calls@) == Self::request_calls(has_vertices, has_indices),
    {
        let mut calls: Vec<GpuCall> = Vec::new();
        calls.push(GpuCall::GenVertexArray);
        if has_vertices {
            calls.push(GpuCall::GenBuffer);
        }
        if has_indices {
            calls.push(GpuCall::GenBuffer);
        }
        assert(call_views(calls@) =~= Self::request_calls(has_vertices, has_indices));
        calls
    }

    /// The names out of the driver's answers to the calls of
    /// [`ObjectNames::requests`], if the answers fit.
    pub fn from_replies(has_vertices: bool, has_indices: bool, replies: &Vec<GpuReply>) -> (names:
        Option<ObjectNames>)
        ensures
            names is Some <==> Self::answers_fit(has_vertices, has_indices, reply_views(replies@)),
            names matches Some(n) ==> n == Self::answered(
                has_vertices,
                has_indices,
                reply_views(replies@),
            ),
            names matches Some(n) ==> n.vertex_array != 0 && (has_vertices ==> n.vertex_buffer != 0)
                && (has_indices ==> n.index_buffer != 0),
    {
        let ghost given = reply_views(replies@);
        let mut expected: usize = 1;
        if has_vertices {
            expected += 1;
        }
        if has_indices {
            expected += 1;
        }
        if replies.len() != expected {
            return None;
        }
        let mut found: Vec<u32> = Vec::new();
        let mut i: usize = 0;
        while i < replies.len()
            invariant
                i <= replies.len(),
                given == reply_views(replies@),
                found@.len() == i,
                forall|k: int|
                    0 <= k < i ==> (#[trigger] given[k] matches GpuReplyView::Name(n) && n != 0
                        && n == found@[k]),
            decreases replies.len() - i,
        {
            match &replies[i] {
                GpuReply::Name(n) => {
                    if *n == 0 {
                        assert(!(given[i as int] matches GpuReplyView::Name(n) && n != 0));
                        return None;
                    }
                    found.push(*n);
                },
                _ => {
                    assert(!(given[i as int] is Name));
                    return None;
                },
            }
            i += 1;
        }
        Some(
            ObjectNames {
                vertex_array: found[0],
                vertex_buffer: if has_vertices {
                    found[1]
                } else {
                    0
                },
                index_buffer: if has_indices {
                    found[expected - 1]
                } else {
                    0
                },
            },
        )
    }
}

/// Why an object could not be changed.
#[derive(Clone, Copy, Debug, PartialEq, Eq, Structural)]
pub enum ChangeError {
    /// The new vertex data is longer than the vertex buffer.
    VertexDataTooLong,
    /// The new indices are more than the index buffer holds.
    IndexDataTooLong,
}

/// What the renderer knows of one registered object.
pub struct ObjectView {
    pub vertex_array: u32,
    /// 0 for an object without vertex data.
    pub vertex_buffer: u32,
    /// 0 for an object without indices, which is drawn from its vertices in
    /// order.
    pub index_buffer: u32,
    /// The indices to draw, or the vertices where there are no indices.
    pub count: i32,
    /// The 32-bit words the vertex buffer was allocated with.
    pub vertex_capacity: nat,
    /// The indices the index buffer was allocated with.
    pub index_capacity: nat,
    pub material: MaterialView,
    /// The uniform updates waiting for the next frame, oldest first.
    pub pending: Seq<(Seq<char>, UniformValue)>,
}

impl ObjectView {
    /// The calls that draw the object: indexed where it has an index buffer,
    /// from its vertices in order where it has none.
    pub open spec fn draw_calls(self) -> Seq<GpuCallView> {
        if self.index_buffer == 0 {
            seq![GpuCallView::DrawArrays { count: self.count }]
        } else {
            seq![
                GpuCallView::BindBuffer(BufferTarget::ElementArray, self.index_buffer),
                GpuCallView::DrawElements { count: self.count },
            ]
        }
    }

    /// The calls of one frame for the object: bind its vertex array, make its
    /// material current, apply the waiting uniform updates in the order they
    /// were queued, draw.
    pub open spec fn frame_calls(self) -> Seq<GpuCallView> {
        seq![GpuCallView::BindVertexArray(self.vertex_array)] + self.material.use_calls()
            + uniform_calls(self.material.program, self.pending) + self.draw_calls()
    }

    /// The object after a frame: nothing waits any more.
    pub open spec fn drained(self) -> ObjectView {
        ObjectView { pending: Seq::empty(), ..self }
    }

    /// The calls that release what the object holds: vertex array, vertex
    /// buffer, index buffer, program.
    pub open spec fn release_calls(self) -> Seq<GpuCallView> {
        seq![
            GpuCallView::DeleteVertexArray(self.vertex_array),
            GpuCallView::DeleteBuffer(self.vertex_buffer),
            GpuCallView::DeleteBuffer(self.index_buffer),
        ] + self.material.delete_calls()
    }

    /// The object once released.
    pub open spec fn released(self) -> ObjectView {
        ObjectView { material: self.material.deleted(), ..self }
    }

    /// The object with one more uniform update waiting.
    pub open spec fn queued(self, name: Seq<char>, value: UniformValue) -> ObjectView {
        ObjectView { pending: self.pending.push((name, value)), ..self }
    }

    /// Whether new data fits the buffers the object was created with.
    pub open spec fn fits(self, vertices: Option<Seq<Vertex>>, indices: Option<Seq<u32>>) -> bool {
        &&& vertices matches Some(v) ==> 13 * v.len() <= self.vertex_capacity
        &&& indices matches Some(i) ==> i.len() <= self.index_capacity
    }

    /// The object after its data was replaced: new indices set the count,
    /// new vertices alone leave it.
    pub open spec fn changed(self, indices: Option<Seq<u32>>) -> ObjectView {
        match indices {
            Some(i) => ObjectView { count: i.len() as i32, ..self },
            None => self,
        }
    }

    /// The calls that replace the object's data in place, vertices before
    /// indices, each from the start of its buffer.
    pub open spec fn change_calls(
        self,
        vertices: Option<Seq<Vertex>>,
        indices: Option<Seq<u32>>,
    ) -> Seq<GpuCallView> {
        (match vertices {
            Some(v) => seq![
                GpuCallView::BindBuffer(BufferTarget::Array, self.vertex_buffer),
                GpuCallView::BufferSubData(BufferTarget::Array, vertex_words(v)),
            ],
            None => Seq::empty(),
        }) + (match indices {
            Some(i) => seq![
                GpuCallView::BindBuffer(BufferTarget::ElementArray, self.index_buffer),
                GpuCallView::BufferSubData(BufferTarget::ElementArray, i),
            ],
            None => Seq::empty(),
        })
    }
}

/// The record of a new object.
pub open spec fn new_object(
    vertices: Option<Seq<Vertex>>,
    indices: Option<Seq<u32>>,
    material: MaterialView,
    names: ObjectNames,
) -> ObjectView {
    ObjectView {
        vertex_array: names.vertex_array,
        vertex_buffer: if vertices is Some {
            names.vertex_buffer
        } else {
            0
        },
        index_buffer: if indices is Some {
            names.index_buffer
        } else {
            0
        },
        count: match (indices, vertices) {
            (Some(i), _) => i.len() as i32,
            (None, Some(v)) => v.len() as i32,
            (None, None) => 0,
        },
        vertex_capacity: match vertices {
            Some(v) => 13 * v.len(),
            None => 0,
        },
        index_capacity: match indices {
            Some(i) => i.len(),
            None => 0,
        },
        material,
        pending: Seq::empty(),
    }
}

/// The calls that set a new object up: bind its vertex array, upload the
/// vertices if there are any, describe the five attribute slots, upload the
/// indices if there are any.
pub open spec fn create_calls(
    vertices: Option<Seq<Vertex>>,
    indices: Option<Seq<u32>>,
    names: ObjectNames,
) -> Seq<GpuCallView> {
    seq![GpuCallView::BindVertexArray(names.vertex_array)] + (match vertices {
        Some(v) => seq![
            GpuCallView::BindBuffer(BufferTarget::Array, names.vertex_buffer),
            GpuCallView::BufferData(BufferTarget::Array, vertex_words(v)),
        ],
        None => Seq::empty(),
    }) + layout_calls(VERTEX_SLOTS as int, VERTEX_STRIDE) + (match indices {
        Some(i) => seq![
            GpuCallView::BindBuffer(BufferTarget::ElementArray, names.index_buffer),
            GpuCallView::BufferData(BufferTarget::ElementArray, i),
        ],
        None => Seq::empty(),
    })
}

/// The frame calls of a list of objects, in list order.
pub open spec fn objects_frame_calls(objects: Seq<ObjectView>) -> Seq<GpuCallView>
    decreases objects.len(),
{
    if objects.len() == 0 {
        Seq::empty()
    } else {
        objects_frame_calls(objects.drop_last()) + objects.last().frame_calls()
    }
}

/// The release calls of a list of objects, in list order.
pub open spec fn objects_release_calls(objects: Seq<ObjectView>) -> Seq<GpuCallView>
    decreases objects.len(),
{
    if objects.len() == 0 {
        Seq::empty()
    } else {
        objects_release_calls(objects.drop_last()) + objects.last().release_calls()
    }
}

/// The calls that apply the pipeline settings a renderer starts with.
pub open spec fn setup_calls(
    multisample: bool,
    depth_test: bool,
    cull_face: FaceCulling,
    debug_filters: Seq<DebugFilter>,
) -> Seq<GpuCallView> {
    seq![
        GpuCallView::Enable(Capability::DebugOutput),
        GpuCallView::Enable(Capability::DebugOutputSynchronous),
        GpuCallView::DebugMessageCallback(debug_filters),
    ] + (if multisample {
        seq![GpuCallView::Enable(Capability::Multisample)]
    } else {
        Seq::empty()
    }) + (if depth_test {
        seq![GpuCallView::Enable(Capability::DepthTest)]
    } else {
        Seq::empty()
    }) + (match cull_face {
        FaceCulling::Neither => Seq::empty(),
        FaceCulling::Front => seq![
            GpuCallView::Enable(Capability::CullFace),
            GpuCallView::CullFace(CullMode::Front),
        ],
        FaceCulling::Back => seq![
            GpuCallView::Enable(Capability::CullFace),
            GpuCallView::CullFace(CullMode::Back),
        ],
        FaceCulling::FrontAndBack => seq![
            GpuCallView::Enable(Capability::CullFace),
            GpuCallView::CullFace(CullMode::FrontAndBack),
        ],
    })
}

/// What a renderer is, mathematically.
pub struct RendererView {
    /// The registered objects; an object's identifier is its position.
    pub objects: Seq<ObjectView>,
    /// The severities the debug hook drops.
    pub debug_filters: Seq<DebugFilter>,
    /// Whether everything has been released.
    pub terminated: bool,
}

impl RendererView {
    /// Every index buffer is small enough for its length to be a draw count,
    /// and while the renderer lives, none of its programs has been released.
    pub open spec fn wf(self) -> bool {
        &&& forall|i: int|
            0 <= i < self.objects.len() ==> (#[trigger] self.objects[i]).index_capacity
                <= i32::MAX
        &&& !self.terminated ==> forall|i: int|
            0 <= i < self.objects.len() ==> !(#[trigger] self.objects[i]).material.deleted
    }

    /// The renderer with one more object, registered last.
    pub open spec fn created(
        self,
        vertices: Option<Seq<Vertex>>,
        indices: Option<Seq<u32>>,
        material: MaterialView,
        names: ObjectNames,
    ) -> RendererView {
        RendererView {
            objects: self.objects.push(new_object(vertices, indices, material, names)),
            ..self
        }
    }

    /// The renderer with one more uniform update waiting for an object.
    pub open spec fn queued(
        self,
        object: int,
        name: Seq<char>,
        value: UniformValue,
    ) -> RendererView {
        RendererView {
            objects: self.objects.update(object, self.objects[object].queued(name, value)),
            ..self
        }
    }

    /// The renderer after the data of an object was replaced.
    pub open spec fn changed(self, object: int, indices: Option<Seq<u32>>) -> RendererView {
        RendererView {
            objects: self.objects.update(object, self.objects[object].changed(indices)),
            ..self
        }
    }

    /// The calls of one frame: set the clear color, clear, then every object
    /// in the order of registration.
    pub open spec fn frame_calls(self, color: (Scalar, Scalar, Scalar, Scalar)) -> Seq<
        GpuCallView,
    > {
        seq![GpuCallView::ClearColor(color.0, color.1, color.2, color.3), GpuCallView::Clear]
            + objects_frame_calls(self.objects)
    }

    /// The renderer after a frame: no uniform update waits any more.
    pub open spec fn rendered(self) -> RendererView {
        RendererView { objects: self.objects.map_values(|o: ObjectView| o.drained()), ..self }
    }

    /// The calls that release everything, object after object in the order of
    /// registration.
    pub open spec fn release_calls(self) -> Seq<GpuCallView> {
        objects_release_calls(self.objects)
    }

    /// The renderer once everything is released.
    pub open spec fn released(self) -> RendererView {
        RendererView {
            objects: self.objects.map_values(|o: ObjectView| o.released()),
            terminated: true,
            ..self
        }
    }
}

/// The contents of data that may be absent.
pub open spec fn contents<T>(data: Option<Vec<T>>) -> Option<Seq<T>> {
    match data {
        Some(v) => Some(v@),
        None => None,
    }
}

/// The GPU names and sizes kept for one object.
struct Buffers {
    vao: u32,
    vbo: u32,
    ibo: u32,
    index_size: i32,
    vertex_capacity: usize,
    index_capacity: usize,
}

/// One registered object.
pub(crate) struct Entry {
    buffers: Buffers,
    material: Material,
    pending: Vec<(String, AttributeType)>,
}

impl View for Entry {
    type V = ObjectView;

    closed spec fn view(&self) -> ObjectView {
        ObjectView {
            vertex_array: self.buffers.vao,
            vertex_buffer: self.buffers.vbo,
            index_buffer: self.buffers.ibo,
            count: self.buffers.index_size,
            vertex_capacity: self.buffers.vertex_capacity as nat,
            index_capacity: self.buffers.index_capacity as nat,
            material: self.material@,
            pending: attribute_views(self.pending@),
        }
    }
}

/// What a list of registered objects is, mathematically.
pub(crate) open spec fn entry_views(entries: Seq<Entry>) -> Seq<ObjectView> {
    entries.map_values(|e: Entry| e@)
}

impl Entry {
    /// The record of an object with nothing queued.
    pub(crate) fn new(
        names: ObjectNames,
        count: i32,
        vertex_capacity: usize,
        index_capacity: usize,
        material: Material,
    ) -> (entry: Entry)
        ensures
            entry@ == (ObjectView {
                vertex_array: names.vertex_array,
                vertex_buffer: names.vertex_buffer,
                index_buffer: names.index_buffer,
                count,
                vertex_capacity: vertex_capacity as nat,
                index_capacity: index_capacity as nat,
                material: material@,
                pending: Seq::empty(),
            }),
    {
        let entry = Entry {
            buffers: Buffers {
                vao: names.vertex_array,
                vbo: names.vertex_buffer,
                ibo: names.index_buffer,
                index_size: count,
                vertex_capacity,
                index_capacity,
            },
            material,
            pending: Vec::new(),
        };
        assert(entry@.pending =~= Seq::empty());
        entry
    }

    /// The calls of one frame for this object; nothing waits afterwards.
    fn frame(&mut self) -> (calls: Vec<GpuCall>)
        requires
            !old(self)@.material.deleted,
        ensures
            final(self)@ == old(self)@.drained(),
            call_views(calls@) == old(self)@.frame_calls(),
    {
        let mut calls: Vec<GpuCall> = Vec::new();
        calls.push(GpuCall::BindVertexArray(self.buffers.vao));
        let mut used = self.material.use_material();
        proof {
            lemma_call_views_add(calls@, used@);
        }
        calls.append(&mut used);
        let program = self.material.get_program_id();
        let mut waiting: Vec<(String, AttributeType)> = Vec::new();
        std::mem::swap(&mut waiting, &mut self.pending);
        let ghost head = calls@;
        let ghost queue = attribute_views(waiting@);
        let ghost given = waiting@;
        for pair in it: waiting.into_iter()
            invariant
                it.seq() == given,
                queue == attribute_views(given),
                call_views(calls@) == call_views(head) + uniform_calls(
                    program,
                    queue.take(it.index() as int),
                ),
        {
            assert(pair == given[it.index() as int]);
            let (name, value) = pair;
            let mut one = set_attribute(program, name, value);
            proof {
                lemma_call_views_add(calls@, one@);
                assert(queue.take(it.index() + 1) =~= queue.take(it.index() as int).push(
                    queue[it.index() as int],
                ));
                lemma_uniform_calls_push(
                    program,
                    queue.take(it.index() as int),
                    queue[it.index() as int].0,
                    queue[it.index() as int].1,
                );
            }
            calls.append(&mut one);
        }
        assert(queue.take(queue.len() as int) =~= queue);
        let ghost applied = calls@;
        if self.buffers.ibo == 0 {
            calls.push(GpuCall::DrawArrays { count: self.buffers.index_size });
        } else {
            calls.push(GpuCall::BindBuffer(BufferTarget::ElementArray, self.buffers.ibo));
            calls.push(GpuCall::DrawElements { count: self.buffers.index_size });
        }
        proof {
            assert(attribute_views(self.pending@) =~= Seq::empty());
            assert(call_views(calls@) =~= call_views(applied) + old(self)@.draw_calls());
        }
        calls
    }

    /// The calls that release what this object holds.
    fn release(&mut self) -> (calls: Vec<GpuCall>)
        requires
            !old(self)@.material.deleted,
        ensures
            final(self)@ == old(self)@.released(),
            call_views(calls@) == old(self)@.release_calls(),
    {
        let mut calls: Vec<GpuCall> = Vec::new();
        calls.push(GpuCall::DeleteVertexArray(self.buffers.vao));
        calls.push(GpuCall::DeleteBuffer(self.buffers.vbo));
        calls.push(GpuCall::DeleteBuffer(self.buffers.ibo));
        let mut deleted = self.material.delete();
        proof {
            lemma_call_views_add(calls@, deleted@);
            assert(call_views(calls@) =~= seq![
                GpuCallView::DeleteVertexArray(self.buffers.vao),
                GpuCallView::DeleteBuffer(self.buffers.vbo),
                GpuCallView::DeleteBuffer(self.buffers.ibo),
            ]);
        }
        calls.append(&mut deleted);
        calls
    }
}

/// The calls of one frame for every object of a list, in list order; nothing
/// waits afterwards.
pub(crate) fn frame_all(entries: &mut Vec<Entry>) -> (calls: Vec<GpuCall>)
    requires
        forall|i: int|
            0 <= i < old(entries)@.len() ==> !(#[trigger] entry_views(
                old(entries)@,
            )[i]).material.deleted,
    ensures
        entry_views(final(entries)@) == entry_views(old(entries)@).map_values(
            |o: ObjectView| o.drained(),
        ),
        call_views(calls@) == objects_frame_calls(entry_views(old(entries)@)),
{
    let mut calls: Vec<GpuCall> = Vec::new();
    let ghost start = entry_views(entries@);
    let mut i: usize = 0;
    while i < entries.len()
        invariant
            i <= entries.len(),
            start == entry_views(old(entries)@),
            entries@.len() == start.len(),
            forall|k: int| 0 <= k < start.len() ==> !(#[trigger] start[k]).material.deleted,
            forall|k: int| 0 <= k < i ==> entry_views(entries@)[k] == #[trigger] start[k].drained(),
            forall|k: int| i <= k < start.len() ==> entry_views(entries@)[k] == #[trigger] start[k],
            call_views(calls@) == objects_frame_calls(start.take(i as int)),
        decreases entries.len() - i,
    {
        let ghost seen = entry_views(entries@);
        assert(seen[i as int] == start[i as int]);
        let mut one = entries[i].frame();
        proof {
            lemma_call_views_add(calls@, one@);
            assert(start.take(i + 1).drop_last() =~= start.take(i as int));
            assert(entry_views(entries@) =~= seen.update(i as int, start[i as int].drained()));
        }
        calls.append(&mut one);
        i += 1;
    }
    proof {
        assert(start.take(i as int) =~= start);
        assert(entry_views(entries@) =~= start.map_values(|o: ObjectView| o.drained()));
    }
    calls
}

/// The calls that release every object of a list, in list order.
pub(crate) fn release_all(entries: &mut Vec<Entry>) -> (calls: Vec<GpuCall>)
    requires
        forall|i: int|
            0 <= i < old(entries)@.len() ==> !(#[trigger] entry_views(
                old(entries)@,
            )[i]).material.deleted,
    ensures
        entry_views(final(entries)@) == entry_views(old(entries)@).map_values(
            |o: ObjectView| o.released(),
        ),
        call_views(calls@) == objects_release_calls(entry_views(old(entries)@)),
{
    let mut calls: Vec<GpuCall> = Vec::new();
    let ghost start = entry_views(entries@);
    let mut i: usize = 0;
    while i < entries.len()
        invariant
            i <= entries.len(),
            start == entry_views(old(entries)@),
            entries@.len() == start.len(),
            forall|k: int| 0 <= k < start.len() ==> !(#[trigger] start[k]).material.deleted,
            forall|k: int|
                0 <= k < i ==> entry_views(entries@)[k] == #[trigger] start[k].released(),
            forall|k: int| i <= k < start.len() ==> entry_views(entries@)[k] == #[trigger] start[k],
            call_views(calls@) == objects_release_calls(start.take(i as int)),
        decreases entries.len() - i,
    {
        let ghost seen = entry_views(entries@);
        assert(seen[i as int] == start[i as int]);
        let mut one = entries[i].release();
        proof {
            lemma_call_views_add(calls@, one@);
            assert(start.take(i + 1).drop_last() =~= start.take(i as int));
            assert(entry_views(entries@) =~= seen.update(i as int, start[i as int].released()));
        }
        calls.append(&mut one);
        i += 1;
    }
    proof {
        assert(start.take(i as int) =~= start);
        assert(entry_views(entries@) =~= start.map_values(|o: ObjectView| o.released()));
    }
    calls
}

/// The register of drawable objects and the source of every frame's calls.
pub struct Renderer {
    objects: Vec<Entry>,
    debug_filters: Vec<DebugFilter>,
    terminated: bool,
}

impl View for Renderer {
    type V = RendererView;

    closed spec fn view(&self) -> RendererView {
        RendererView {
            objects: entry_views(self.objects@),
            debug_filters: self.debug_filters@,
            terminated: self.terminated,
        }
    }
}

impl Renderer {
    /// A renderer with no objects, and the calls that apply its pipeline
    /// settings: debug output with the hook and its filters, then
    /// multisampling, depth testing and face culling as asked.
    pub fn new(
        multisample: bool,
        depth_test: bool,
        cull_face: FaceCulling,
        debug_filters: Vec<DebugFilter>,
    ) -> (r: (Renderer, Vec<GpuCall>))
        ensures
            r.0@ == (RendererView {
                objects: Seq::empty(),
                debug_filters: debug_filters@,
                terminated: false,
            }),
            r.0@.wf(),
            call_views(r.1@) == setup_calls(multisample, depth_test, cull_face, debug_filters@),
    {
        let mut calls: Vec<GpuCall> = Vec::new();
        calls.push(GpuCall::Enable(Capability::DebugOutput));
        calls.push(GpuCall::Enable(Capability::DebugOutputSynchronous));
        calls.push(GpuCall::DebugMessageCallback(debug_filters.clone()));
        if multisample {
            calls.push(GpuCall::Enable(Capability::Multisample));
        }
        if depth_test {
            calls.push(GpuCall::Enable(Capability::DepthTest));
        }
        match cull_face {
            FaceCulling::Front => {
                calls.push(GpuCall::Enable(Capability::CullFace));
                calls.push(GpuCall::CullFace(CullMode::Front));
            },
            FaceCulling::Back => {
                calls.push(GpuCall::Enable(Capability::CullFace));
                calls.push(GpuCall::CullFace(CullMode::Back));
            },
            FaceCulling::FrontAndBack => {
                calls.push(GpuCall::Enable(Capability::CullFace));
                calls.push(GpuCall::CullFace(CullMode::FrontAndBack));
            },
            FaceCulling::Neither => {},
        }
        assert(call_views(calls@) =~= setup_calls(
            multisample,
            depth_test,
            cull_face,
            debug_filters@,
        ));
        let renderer = Renderer { objects: Vec::new(), debug_filters, terminated: false };
        assert(renderer@.objects =~= Seq::empty());
        (renderer, calls)
    }

    /// The number of objects registered so far, which is also the identifier
    /// the next one will get.
    pub fn object_count(&self) -> (n: usize)
        ensures
            n == self@.objects.len(),
    {
        self.objects.len()
    }

    /// Whether the renderer's life has ended.
    pub fn is_terminated(&self) -> (r: bool)
        ensures
            r == self@.terminated,
    {
        self.terminated
    }

    /// The severities the debug hook drops.
    pub fn debug_filters(&self) -> (r: &Vec<DebugFilter>)
        ensures
            r@ == self@.debug_filters,
    {
        &self.debug_filters
    }

    /// The number of indices, or of vertices where there are no indices, that
    /// a draw of the object covers.
    pub fn draw_count(&self, object: u32) -> (n: i32)
        requires
            object < self@.objects.len(),
        ensures
            n == self@.objects[object as int].count,
    {
        self.objects[object as usize].buffers.index_size
    }

    /// The number of uniform updates waiting for the object.
    pub fn pending_count(&self, object: u32) -> (n: usize)
        requires
            object < self@.objects.len(),
        ensures
            n == self@.objects[object as int].pending.len(),
    {
        self.objects[object as usize].pending.len()
    }

    /// The calls that switch the vertex attribute slot `index` on and describe
    /// it as `size` numbers found `offset` bytes into each `stride`-byte vertex.
    pub fn enable_vertex_attrib_ptr(index: u32, size: i32, stride: i32, offset: usize) -> (calls:
        Vec<GpuCall>)
        ensures
            call_views(calls@) == attribute_calls(index, size, stride, offset),
    {
        let mut calls: Vec<GpuCall> = Vec::new();
        calls.push(GpuCall::EnableVertexAttribArray(index));
        calls.push(GpuCall::VertexAttribPointer { index, size, stride, offset });
        assert(call_views(calls@) =~= attribute_calls(index, size, stride, offset));
        calls
    }

    /// The calls that describe the five slots of the vertex layout.
    fn describe_layout() -> (calls: Vec<GpuCall>)
        ensures
            call_views(calls@) == layout_calls(VERTEX_SLOTS as int, VERTEX_STRIDE),
    {
        let mut calls: Vec<GpuCall> = Vec::new();
        let mut position = Renderer::enable_vertex_attrib_ptr(0, 3, VERTEX_STRIDE, 0);
        let mut color = Renderer::enable_vertex_attrib_ptr(1, 4, VERTEX_STRIDE, 12);
        let mut tex_coords = Renderer::enable_vertex_attrib_ptr(2, 2, VERTEX_STRIDE, 28);
        let mut normals = Renderer::enable_vertex_attrib_ptr(3, 3, VERTEX_STRIDE, 36);
        let mut texture_id = Renderer::enable_vertex_attrib_ptr(4, 1, VERTEX_STRIDE, 48);
        let ghost parts = position@ + color@ + tex_coords@ + normals@ + texture_id@;
        proof {
            reveal_with_fuel(layout_calls, 6);
            lemma_vertex_layout_is_packed();
            lemma_call_views_add(position@, color@);
            lemma_call_views_add(position@ + color@, tex_coords@);
            lemma_call_views_add(position@ + color@ + tex_coords@, normals@);
            lemma_call_views_add(position@ + color@ + tex_coords@ + normals@, texture_id@);
        }
        calls.append(&mut position);
        calls.append(&mut color);
        calls.append(&mut tex_coords);
        calls.append(&mut normals);
        calls.append(&mut texture_id);
        assert(calls@ =~= parts);
        assert(call_views(calls@) =~= layout_calls(VERTEX_SLOTS as int, VERTEX_STRIDE));
        calls
    }

    /// Registers an object under the fresh names given and returns its
    /// identifier with the calls that set it up.
    ///
    /// The identifier is the number of objects registered before, so it grows
    /// by one with every object and is never given twice. An object without
    /// indices is marked for drawing from its vertices in order, and counts
    /// its vertices; one with indices counts those.
    pub fn create_object(
        &mut self,
        vertices: Option<Vec<Vertex>>,
        indices: Option<Vec<u32>>,
        material: Material,
        names: ObjectNames,
    ) -> (r: (u32, Vec<GpuCall>))
        requires
            old(self)@.wf(),
            !old(self)@.terminated,
            !material@.deleted,
            old(self)@.objects.len() < u32::MAX,
            indices matches Some(i) ==> i@.len() <= i32::MAX && names.index_buffer != 0,
            indices is None ==> (vertices matches Some(v) ==> v@.len() <= i32::MAX),
        ensures
            final(self)@ == old(self)@.created(
                contents(vertices),
                contents(indices),
                material@,
                names,
            ),
            final(self)@.wf(),
            r.0 == old(self)@.objects.len(),
            call_views(r.1@) == create_calls(contents(vertices), contents(indices), names),
    {
        let mut calls: Vec<GpuCall> = Vec::new();
        calls.push(GpuCall::BindVertexArray(names.vertex_array));
        let mut vbo: u32 = 0;
        let mut vertex_capacity: usize = 0;
        let mut vertex_count: usize = 0;
        match &vertices {
            Some(vertex_data) => {
                let buffer_data = pack_vertices(vertex_data);
                vbo = names.vertex_buffer;
                vertex_capacity = buffer_data.len();
                vertex_count = vertex_data.len();
                calls.push(GpuCall::BindBuffer(BufferTarget::Array, vbo));
                calls.push(GpuCall::BufferData(BufferTarget::Array, buffer_data));
            },
            None => {},
        }
        let ghost uploaded = calls@;
        let mut layout = Renderer::describe_layout();
        proof {
            lemma_call_views_add(calls@, layout@);
        }
        calls.append(&mut layout);
        let ghost described = calls@;
        let mut ibo: u32 = 0;
        let mut index_capacity: usize = 0;
        let index_size: i32;
        match indices {
            Some(index_data) => {
                ibo = names.index_buffer;
                index_capacity = index_data.len();
                index_size = index_data.len() as i32;
                calls.push(GpuCall::BindBuffer(BufferTarget::ElementArray, ibo));
                calls.push(GpuCall::BufferData(BufferTarget::ElementArray, index_data));
            },
            None => {
                index_size = vertex_count as i32;
            },
        }
        proof {
            assert(call_views(uploaded) =~= seq![
                GpuCallView::BindVertexArray(names.vertex_array),
            ] + (match contents(vertices) {
                Some(v) => seq![
                    GpuCallView::BindBuffer(BufferTarget::Array, names.vertex_buffer),
                    GpuCallView::BufferData(BufferTarget::Array, vertex_words(v)),
                ],
                None => Seq::empty(),
            }));
            assert(call_views(calls@) =~= call_views(described) + (match contents(indices) {
                Some(i) => seq![
                    GpuCallView::BindBuffer(BufferTarget::ElementArray, names.index_buffer),
                    GpuCallView::BufferData(BufferTarget::ElementArray, i),
                ],
                None => Seq::empty(),
            }));
        }
        let entry = Entry::new(
            ObjectNames { vertex_array: names.vertex_array, vertex_buffer: vbo, index_buffer: ibo },
            index_size,
            vertex_capacity,
            index_capacity,
            material,
        );
        proof {
            assert(entry@ == new_object(contents(vertices), contents(indices), material@, names));
        }
        self.objects.push(entry);
        proof {
            assert(self@.objects =~= old(self)@.objects.push(entry@));
        }
        ((self.objects.len() - 1) as u32, calls)
    }

    /// Queues a uniform update for an object. The updates of an object are
    /// applied at its next draw, in the order they were queued.
    pub fn set_material_attribute(&mut self, object: u32, n: &str, t: AttributeType)
        requires
            old(self)@.wf(),
            !old(self)@.terminated,
            object < old(self)@.objects.len(),
        ensures
            final(self)@ == old(self)@.queued(object as int, n@, t@),
            final(self)@.wf(),
    {
        let ghost before = self.objects@[object as int].pending@;
        self.objects[object as usize].pending.push((n.to_owned(), t));
        proof {
            assert(attribute_views(self.objects@[object as int].pending@) =~= attribute_views(
                before,
            ).push((n@, t@)));
            assert(self@.objects =~= old(self)@.queued(object as int, n@, t@).objects);
        }
    }

    /// Replaces, in place and from the start of each buffer, the vertex data
    /// or the indices of an object, or both.
    ///
    /// Data that would not fit the buffer the object was created with is
    /// refused and nothing changes. New indices set the object's draw count to
    /// their number; new vertices alone leave the count as it is.
    pub fn change_object(
        &mut self,
        object: u32,
        vertices: Option<Vec<Vertex>>,
        indices: Option<Vec<u32>>,
    ) -> (r: Result<Vec<GpuCall>, ChangeError>)
        requires
            old(self)@.wf(),
            !old(self)@.terminated,
            object < old(self)@.objects.len(),
        ensures
            final(self)@.wf(),
            r is Ok <==> old(self)@.objects[object as int].fits(
                contents(vertices),
                contents(indices),
            ),
            r matches Ok(calls) ==> {
                &&& final(self)@ == old(self)@.changed(object as int, contents(indices))
                &&& call_views(calls@) == old(self)@.objects[object as int].change_calls(
                    contents(vertices),
                    contents(indices),
                )
            },
            r is Err ==> final(self)@ == old(self)@,
            r matches Err(e) ==> (e == ChangeError::VertexDataTooLong <==> !old(
                self,
            )@.objects[object as int].fits(contents(vertices), None)),
    {
        let slot = object as usize;
        let mut calls: Vec<GpuCall> = Vec::new();
        let mut words: Option<Vec<u32>> = None;
        match &vertices {
            Some(vertex_data) => {
                let buffer_data = pack_vertices(vertex_data);
                if buffer_data.len() > self.objects[slot].buffers.vertex_capacity {
                    return Err(ChangeError::VertexDataTooLong);
                }
                words = Some(buffer_data);
            },
            None => {},
        }
        match &indices {
            Some(index_data) => {
                if index_data.len() > self.objects[slot].buffers.index_capacity {
                    return Err(ChangeError::IndexDataTooLong);
                }
            },
            None => {},
        }
        match words {
            Some(buffer_data) => {
                let vbo = self.objects[slot].buffers.vbo;
                calls.push(GpuCall::BindBuffer(BufferTarget::Array, vbo));
                calls.push(GpuCall::BufferSubData(BufferTarget::Array, buffer_data));
            },
            None => {},
        }
        let ghost first = calls@;
        match indices {
            Some(index_data) => {
                calls.push(
                    GpuCall::BindBuffer(BufferTarget::ElementArray, self.objects[slot].buffers.ibo),
                );
                assert(old(self)@.objects[object as int].index_capacity <= i32::MAX);
                self.objects[slot].buffers.index_size = index_data.len() as i32;
                calls.push(GpuCall::BufferSubData(BufferTarget::ElementArray, index_data));
            },
            None => {},
        }
        proof {
            let o = old(self)@.objects[object as int];
            assert(call_views(first) =~= (match contents(vertices) {
                Some(v) => seq![
                    GpuCallView::BindBuffer(BufferTarget::Array, o.vertex_buffer),
                    GpuCallView::BufferSubData(BufferTarget::Array, vertex_words(v)),
                ],
                None => Seq::empty(),
            }));
            assert(call_views(calls@) =~= o.change_calls(contents(vertices), contents(indices)));
            assert(self@.objects =~= old(self)@.changed(object as int, contents(indices)).objects);
        }
        Ok(calls)
    }

    /// The calls of one frame: clear to `bg_color`, then for every object, in
    /// the order of registration, bind, use the material, apply the queued
    /// uniform updates and draw. Afterwards no update is queued.
    pub fn render(&mut self, bg_color: (Scalar, Scalar, Scalar, Scalar)) -> (calls: Vec<GpuCall>)
        requires
            old(self)@.wf(),
            !old(self)@.terminated,
        ensures
            final(self)@ == old(self)@.rendered(),
            final(self)@.wf(),
            call_views(calls@) == old(self)@.frame_calls(bg_color),
    {
        let mut calls: Vec<GpuCall> = Vec::new();
        calls.push(GpuCall::ClearColor(bg_color.0, bg_color.1, bg_color.2, bg_color.3));
        calls.push(GpuCall::Clear);
        proof {
            let before = old(self)@.objects;
            assert forall|i: int| 0 <= i < self.objects@.len() implies !(#[trigger] entry_views(
                self.objects@,
            )[i]).material.deleted by {
                assert(!before[i].material.deleted);
            }
        }
        let mut frames = frame_all(&mut self.objects);
        proof {
            let before = old(self)@.objects;
            assert forall|i: int| 0 <= i < self@.objects.len() implies (#[trigger] self@.objects[i])
                == before[i].drained() by {}
            lemma_call_views_add(calls@, frames@);
            assert(call_views(calls@) =~= seq![
                GpuCallView::ClearColor(bg_color.0, bg_color.1, bg_color.2, bg_color.3),
                GpuCallView::Clear,
            ]);
        }
        calls.append(&mut frames);
        calls
    }

    /// The call that sets the viewport to the rectangle from the origin to
    /// `x`, `y`.
    pub fn resize_viewport(&mut self, x: i32, y: i32) -> (calls: Vec<GpuCall>)
        requires
            !old(self)@.terminated,
        ensures
            final(self)@ == old(self)@,
            call_views(calls@) == seq![GpuCallView::Viewport { width: x, height: y }],
    {
        let mut calls: Vec<GpuCall> = Vec::new();
        calls.push(GpuCall::Viewport { width: x, height: y });
        assert(call_views(calls@) =~= seq![GpuCallView::Viewport { width: x, height: y }]);
        calls
    }

    /// Ends the renderer's life and gives the calls that release, object
    /// after object in the order of registration, its vertex array, its two
    /// buffers and its program.
    pub fn terminate(&mut self) -> (calls: Vec<GpuCall>)
        requires
            old(self)@.wf(),
            !old(self)@.terminated,
        ensures
            final(self)@ == old(self)@.released(),
            final(self)@.wf(),
            call_views(calls@) == old(self)@.release_calls(),
    {
        proof {
            let before = old(self)@.objects;
            assert forall|i: int| 0 <= i < self.objects@.len() implies !(#[trigger] entry_views(
                self.objects@,
            )[i]).material.deleted by {
                assert(!before[i].material.deleted);
            }
        }
        let calls = release_all(&mut self.objects);
        self.terminated = true;
        proof {
            let before = old(self)@.objects;
            assert forall|i: int| 0 <= i < self@.objects.len() implies (#[trigger] self@.objects[i])
                == before[i].released() by {}
        }
        calls
    }
}

impl RendererView {
    /// The renderer with a run of uniform updates queued for an object, one
    /// after the other.
    pub open spec fn queued_all(
        self,
        object: int,
        updates: Seq<(Seq<char>, UniformValue)>,
    ) -> RendererView
        decreases updates.len(),
    {
        if updates.len() == 0 {
            self
        } else {
            self.queued_all(object, updates.drop_last()).queued(
                object,
                updates.last().0,
                updates.last().1,
            )
        }
    }
}

/// Queueing a run of updates for an object appends them, in order, to what
/// waits for that object, and touches nothing else.
pub proof fn lemma_queued_all(
    renderer: RendererView,
    object: int,
    updates: Seq<(Seq<char>, UniformValue)>,
)
    requires
        0 <= object < renderer.objects.len(),
    ensures
        renderer.queued_all(object, updates) == (RendererView {
            objects: renderer.objects.update(
                object,
                ObjectView {
                    pending: renderer.objects[object].pending + updates,
                    ..renderer.objects[object]
                },
            ),
            ..renderer
        }),
    decreases updates.len(),
{
    let target = renderer.objects[object];
    if updates.len() == 0 {
        assert(target.pending + updates =~= target.pending);
        assert(renderer.objects.update(object, target) =~= renderer.objects);
    } else {
        lemma_queued_all(renderer, object, updates.drop_last());
        let earlier = renderer.queued_all(object, updates.drop_last());
        assert((target.pending + updates.drop_last()).push(updates.last()) =~= target.pending
            + updates);
        assert(earlier.queued(object, updates.last().0, updates.last().1).objects
            =~= renderer.objects.update(
            object,
            ObjectView { pending: target.pending + updates, ..target },
        ));
    }
}

/// Identifiers are positions in a register that only grows: a new object gets
/// the identifier after the last one given, which no earlier object has, and
/// every earlier object keeps its identifier and its record.
pub proof fn lemma_identifiers_never_reused(
    renderer: RendererView,
    vertices: Option<Seq<Vertex>>,
    indices: Option<Seq<u32>>,
    material: MaterialView,
    names: ObjectNames,
)
    ensures
        ({
            let after = renderer.created(vertices, indices, material, names);
            &&& after.objects.len() == renderer.objects.len() + 1
            &&& after.objects[renderer.objects.len() as int] == new_object(
                vertices,
                indices,
                material,
                names,
            )
            &&& forall|id: int|
                0 <= id < renderer.objects.len() ==> #[trigger] after.objects[id]
                    == renderer.objects[id]
        }),
{
}

/// In the calls of a frame every object has one unbroken block, and the
/// blocks stand in the order of registration: the calls of all objects are
/// those of the objects before any one of them, then that object's own, then
/// those of the objects after it.
pub proof fn lemma_frame_is_blocks_in_order(objects: Seq<ObjectView>, object: int)
    requires
        0 <= object < objects.len(),
    ensures
        objects_frame_calls(objects) == objects_frame_calls(objects.take(object))
            + objects[object].frame_calls() + objects_frame_calls(objects.skip(object + 1)),
    decreases objects.len(),
{
    let rest = objects.skip(object + 1);
    if object == objects.len() - 1 {
        assert(objects.drop_last() =~= objects.take(object));
        assert(objects_frame_calls(rest) =~= Seq::empty());
    } else {
        let earlier = objects.drop_last();
        lemma_frame_is_blocks_in_order(earlier, object);
        assert(earlier.take(object) =~= objects.take(object));
        assert(rest.drop_last() =~= earlier.skip(object + 1));
        assert(rest.last() == objects.last());
    }
}

/// A frame empties every queue, and what is queued after it is exactly what
/// the next frame applies: the updates queued for an object since the last
/// frame, in the order they were queued, after the object's material is made
/// current and before the object is drawn. No other object sees them.
pub proof fn lemma_queue_lives_one_frame(
    renderer: RendererView,
    object: int,
    updates: Seq<(Seq<char>, UniformValue)>,
)
    requires
        0 <= object < renderer.objects.len(),
    ensures
        forall|i: int|
            0 <= i < renderer.objects.len() ==> (#[trigger] renderer.rendered().objects[i]).pending
                == Seq::<(Seq<char>, UniformValue)>::empty(),
        ({
            let next = renderer.rendered().queued_all(object, updates);
            let target = renderer.objects[object];
            &&& next.objects.len() == renderer.objects.len()
            &&& next.objects[object].pending == updates
            &&& next.objects[object].frame_calls() == seq![
                GpuCallView::BindVertexArray(target.vertex_array),
            ] + target.material.use_calls() + uniform_calls(target.material.program, updates)
                + target.draw_calls()
            &&& forall|i: int|
                0 <= i < renderer.objects.len() && i != object ==> (#[trigger] next.objects[i])
                    == renderer.objects[i].drained()
            &&& next.rendered() == renderer.rendered()
        }),
{
    let drained = renderer.rendered();
    lemma_queued_all(drained, object, updates);
    let next = drained.queued_all(object, updates);
    assert(drained.objects[object].pending + updates =~= updates);
    assert(next.rendered().objects =~= drained.objects);
}

/// Replacing only the indices of an object sets its draw count to their
/// number and asks for no call on the vertex buffer; replacing only the
/// vertices leaves the draw count, and the whole record, as it was and asks
/// for no call on the index buffer.
pub proof fn lemma_change_touches_what_is_given(
    object: ObjectView,
    vertices: Seq<Vertex>,
    indices: Seq<u32>,
)
    requires
        indices.len() <= i32::MAX,
    ensures
        object.changed(Some(indices)).count == indices.len(),
        object.changed(Some(indices)) == (ObjectView { count: indices.len() as i32, ..object }),
        object.change_calls(None, Some(indices)) == seq![
            GpuCallView::BindBuffer(BufferTarget::ElementArray, object.index_buffer),
            GpuCallView::BufferSubData(BufferTarget::ElementArray, indices),
        ],
        object.changed(None) == object,
        object.change_calls(Some(vertices), None) == seq![
            GpuCallView::BindBuffer(BufferTarget::Array, object.vertex_buffer),
            GpuCallView::BufferSubData(BufferTarget::Array, vertex_words(vertices)),
        ],
{
    assert(object.change_calls(None, Some(indices)) =~= seq![
        GpuCallView::BindBuffer(BufferTarget::ElementArray, object.index_buffer),
        GpuCallView::BufferSubData(BufferTarget::ElementArray, indices),
    ]);
    assert(object.change_calls(Some(vertices), None) =~= seq![
        GpuCallView::BindBuffer(BufferTarget::Array, object.vertex_buffer),
        GpuCallView::BufferSubData(BufferTarget::Array, vertex_words(vertices)),
    ]);
}

/// How an object is drawn follows from how it was created: without indices,
/// from its vertices in order, over the number of vertices given; with
/// indices, by index, over the number of indices given. The draw is the last
/// thing in the object's frame.
pub proof fn lemma_draw_follows_creation(
    vertices: Option<Seq<Vertex>>,
    indices: Option<Seq<u32>>,
    material: MaterialView,
    names: ObjectNames,
)
    requires
        indices matches Some(i) ==> i.len() <= i32::MAX && names.index_buffer != 0,
        vertices matches Some(v) ==> v.len() <= i32::MAX,
    ensures
        ({
            let object = new_object(vertices, indices, material, names);
            &&& indices matches Some(i) ==> object.draw_calls() == seq![
                GpuCallView::BindBuffer(BufferTarget::ElementArray, names.index_buffer),
                GpuCallView::DrawElements { count: i.len() as i32 },
            ] && object.count == i.len()
            &&& indices is None ==> (vertices matches Some(v) ==> object.draw_calls() == seq![
                GpuCallView::DrawArrays { count: v.len() as i32 },
            ] && object.count == v.len())
            &&& (indices is None && vertices is None) ==> object.draw_calls() == seq![
                GpuCallView::DrawArrays { count: 0 },
            ]
            &&& object.frame_calls().subrange(
                object.frame_calls().len() - object.draw_calls().len(),
                object.frame_calls().len() as int,
            ) == object.draw_calls()
        }),
{
    let object = new_object(vertices, indices, material, names);
    let before = seq![GpuCallView::BindVertexArray(object.vertex_array)]
        + object.material.use_calls() + uniform_calls(object.material.program, object.pending);
    assert(object.frame_calls() == before + object.draw_calls());
    assert((before + object.draw_calls()).subrange(
        before.len() as int,
        (before + object.draw_calls()).len() as int,
    ) =~= object.draw_calls());
}

} // verus!
