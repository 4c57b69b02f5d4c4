//! Materials: a program, the textures it samples and the uniforms it is
//! given, bound together before a draw.

use vstd::prelude::*;
use crate::gpu::{
    call_views, lemma_call_views_add, GpuCall, GpuCallView, UniformBase, UniformForm,
    UniformPayload, UniformUpload, UniformValue,
};
use crate::scalar::{scalar_words, signed_words, unsigned_words, Scalar};
use crate::texture::Texture;

verus! {

/// A typed uniform value.
///
/// The `Vec…` variants carry a count of elements and the components of all
/// of them; the `Matrix…` variants carry one matrix, column after column, named
/// by its columns and then its rows.
#[derive(Clone, Debug, PartialEq, Eq)]
pub enum AttributeType {
    Float1(Scalar),
    Float2(Scalar, Scalar),
    Float3(Scalar, Scalar, Scalar),
    Float4(Scalar, Scalar, Scalar, Scalar),
    Int1(i32),
    Int2(i32, i32),
    Int3(i32, i32, i32),
    Int4(i32, i32, i32, i32),
    UInt1(u32),
    UInt2(u32, u32),
    UInt3(u32, u32, u32),
    UInt4(u32, u32, u32, u32),
    VecFloat1(i32, Vec<Scalar>),
    VecFloat2(i32, Vec<Scalar>),
    VecFloat3(i32, Vec<Scalar>),
    VecFloat4(i32, Vec<Scalar>),
    VecInt1(i32, Vec<i32>),
    VecInt2(i32, Vec<i32>),
    VecInt3(i32, Vec<i32>),
    VecInt4(i32, Vec<i32>),
    VecUInt1(i32, Vec<u32>),
    VecUInt2(i32, Vec<u32>),
    VecUInt3(i32, Vec<u32>),
    VecUInt4(i32, Vec<u32>),
    Matrix2(Vec<Scalar>),
    Matrix3(Vec<Scalar>),
    Matrix4(Vec<Scalar>),
    Matrix2x3(Vec<Scalar>),
    Matrix3x2(Vec<Scalar>),
    Matrix2x4(Vec<Scalar>),
    Matrix4x2(Vec<Scalar>),
    Matrix3x4(Vec<Scalar>),
    Matrix4x3(Vec<Scalar>),
}

impl AttributeType {
    /// The family of upload the value goes through.
    pub open spec fn form(&self) -> UniformForm {
        match self {
            AttributeType::Float1(..)
            | AttributeType::Float2(..)
            | AttributeType::Float3(..)
            | AttributeType::Float4(..)
            | AttributeType::Int1(..)
            | AttributeType::Int2(..)
            | AttributeType::Int3(..)
            | AttributeType::Int4(..)
            | AttributeType::UInt1(..)
            | AttributeType::UInt2(..)
            | AttributeType::UInt3(..)
            | AttributeType::UInt4(..) => UniformForm::Values,
            AttributeType::VecFloat1(..)
            | AttributeType::VecFloat2(..)
            | AttributeType::VecFloat3(..)
            | AttributeType::VecFloat4(..)
            | AttributeType::VecInt1(..)
            | AttributeType::VecInt2(..)
            | AttributeType::VecInt3(..)
            | AttributeType::VecInt4(..)
            | AttributeType::VecUInt1(..)
            | AttributeType::VecUInt2(..)
            | AttributeType::VecUInt3(..)
            | AttributeType::VecUInt4(..) => UniformForm::Array,
            _ => UniformForm::Matrix,
        }
    }

    /// The type of the value's components.
    pub open spec fn base(&self) -> UniformBase {
        match self {
            AttributeType::Int1(..)
            | AttributeType::Int2(..)
            | AttributeType::Int3(..)
            | AttributeType::Int4(..)
            | AttributeType::VecInt1(..)
            | AttributeType::VecInt2(..)
            | AttributeType::VecInt3(..)
            | AttributeType::VecInt4(..) => UniformBase::Int,
            AttributeType::UInt1(..)
            | AttributeType::UInt2(..)
            | AttributeType::UInt3(..)
            | AttributeType::UInt4(..)
            | AttributeType::VecUInt1(..)
            | AttributeType::VecUInt2(..)
            | AttributeType::VecUInt3(..)
            | AttributeType::VecUInt4(..) => UniformBase::UInt,
            _ => UniformBase::Float,
        }
    }

    /// Components per element; for a matrix, its columns.
    pub open spec fn columns(&self) -> int {
        match self {
            AttributeType::Float1(..)
            | AttributeType::Int1(..)
            | AttributeType::UInt1(..)
            | AttributeType::VecFloat1(..)
            | AttributeType::VecInt1(..)
            | AttributeType::VecUInt1(..) => 1,
            AttributeType::Float2(..)
            | AttributeType::Int2(..)
            | AttributeType::UInt2(..)
            | AttributeType::VecFloat2(..)
            | AttributeType::VecInt2(..)
            | AttributeType::VecUInt2(..)
            | AttributeType::Matrix2(..)
            | AttributeType::Matrix2x3(..)
            | AttributeType::Matrix2x4(..) => 2,
            AttributeType::Float3(..)
            | AttributeType::Int3(..)
            | AttributeType::UInt3(..)
            | AttributeType::VecFloat3(..)
            | AttributeType::VecInt3(..)
            | AttributeType::VecUInt3(..)
            | AttributeType::Matrix3(..)
            | AttributeType::Matrix3x2(..)
            | AttributeType::Matrix3x4(..) => 3,
            _ => 4,
        }
    }

    /// Rows of a matrix; 1 for anything else.
    pub open spec fn rows(&self) -> int {
        match self {
            AttributeType::Matrix2(..)
            | AttributeType::Matrix3x2(..)
            | AttributeType::Matrix4x2(..) => 2,
            AttributeType::Matrix3(..)
            | AttributeType::Matrix2x3(..)
            | AttributeType::Matrix4x3(..) => 3,
            AttributeType::Matrix4(..)
            | AttributeType::Matrix2x4(..)
            | AttributeType::Matrix3x4(..) => 4,
            _ => 1,
        }
    }

    /// The number of elements announced: what an array variant says, and 1 for
    /// the others.
    pub open spec fn count(&self) -> int {
        match self {
            AttributeType::VecFloat1(n, _)
            | AttributeType::VecFloat2(n, _)
            | AttributeType::VecFloat3(n, _)
            | AttributeType::VecFloat4(n, _)
            | AttributeType::VecInt1(n, _)
            | AttributeType::VecInt2(n, _)
            | AttributeType::VecInt3(n, _)
            | AttributeType::VecInt4(n, _)
            | AttributeType::VecUInt1(n, _)
            | AttributeType::VecUInt2(n, _)
            | AttributeType::VecUInt3(n, _)
            | AttributeType::VecUInt4(n, _) => *n as int,
            _ => 1,
        }
    }

    /// The components carried, in order, a number by its bit pattern.
    pub open spec fn words(&self) -> Seq<int> {
        match self {
            AttributeType::Float1(a) => seq![a.bits as int],
            AttributeType::Float2(a, b) => seq![a.bits as int, b.bits as int],
            AttributeType::Float3(a, b, c) => seq![a.bits as int, b.bits as int, c.bits as int],
            AttributeType::Float4(a, b, c, d) => seq![
                a.bits as int,
                b.bits as int,
                c.bits as int,
                d.bits as int,
            ],
            AttributeType::Int1(a) => seq![*a as int],
            AttributeType::Int2(a, b) => seq![*a as int, *b as int],
            AttributeType::Int3(a, b, c) => seq![*a as int, *b as int, *c as int],
            AttributeType::Int4(a, b, c, d) => seq![*a as int, *b as int, *c as int, *d as int],
            AttributeType::UInt1(a) => seq![*a as int],
            AttributeType::UInt2(a, b) => seq![*a as int, *b as int],
            AttributeType::UInt3(a, b, c) => seq![*a as int, *b as int, *c as int],
            AttributeType::UInt4(a, b, c, d) => seq![*a as int, *b as int, *c as int, *d as int],
            AttributeType::VecFloat1(_, v)
            | AttributeType::VecFloat2(_, v)
            | AttributeType::VecFloat3(_, v)
            | AttributeType::VecFloat4(_, v)
            | AttributeType::Matrix2(v)
            | AttributeType::Matrix3(v)
            | AttributeType::Matrix4(v)
            | AttributeType::Matrix2x3(v)
            | AttributeType::Matrix3x2(v)
            | AttributeType::Matrix2x4(v)
            | AttributeType::Matrix4x2(v)
            | AttributeType::Matrix3x4(v)
            | AttributeType::Matrix4x3(v) => scalar_words(v@),
            AttributeType::VecInt1(_, v)
            | AttributeType::VecInt2(_, v)
            | AttributeType::VecInt3(_, v)
            | AttributeType::VecInt4(_, v) => signed_words(v@),
            AttributeType::VecUInt1(_, v)
            | AttributeType::VecUInt2(_, v)
            | AttributeType::VecUInt3(_, v)
            | AttributeType::VecUInt4(_, v) => unsigned_words(v@),
        }
    }
}

impl View for AttributeType {
    type V = UniformValue;

    open spec fn view(&self) -> UniformValue {
        UniformValue {
            form: self.form(),
            base: self.base(),
            columns: self.columns(),
            rows: self.rows(),
            count: self.count(),
            words: self.words(),
        }
    }
}

/// The number of components in a payload.
fn payload_len(payload: &UniformPayload) -> (n: usize)
    ensures
        n == payload.words().len(),
{
    match payload {
        UniformPayload::Floats(v) => v.len(),
        UniformPayload::Ints(v) => v.len(),
        UniformPayload::UInts(v) => v.len(),
    }
}

/// An upload of one element whose components go by value.
fn by_value(columns: u8, payload: UniformPayload) -> (u: UniformUpload)
    ensures
        u.form == UniformForm::Values,
        u.columns == columns,
        u.rows == 1,
        u.count == 1,
        !u.transpose,
        u.payload == payload,
{
    UniformUpload {
        form: UniformForm::Values,
        columns,
        rows: 1,
        count: 1,
        transpose: false,
        payload,
    }
}

/// An upload of `count` elements of `columns` components each, if the payload
/// holds exactly that many components.
fn array_of(columns: u8, count: i32, payload: UniformPayload) -> (r: Option<UniformUpload>)
    requires
        1 <= columns <= 4,
    ensures
        r is Some <==> count >= 0 && payload.words().len() == columns * count,
        r matches Some(u) ==> {
            &&& u.form == UniformForm::Array
            &&& u.columns == columns
            &&& u.rows == 1
            &&& u.count == count
            &&& !u.transpose
            &&& u.payload == payload
        },
{
    if count < 0 {
        return None;
    }
    assert(columns * count <= 4 * 0x7fff_ffff) by (nonlinear_arith)
        requires
            1 <= columns <= 4,
            0 <= count <= 0x7fff_ffff,
    ;
    let expected: u64 = (columns as u64) * (count as u64);
    if payload_len(&payload) as u64 != expected {
        return None;
    }
    Some(
        UniformUpload {
            form: UniformForm::Array,
            columns,
            rows: 1,
            count,
            transpose: false,
            payload,
        },
    )
}

/// An upload of one untransposed matrix, if `data` holds exactly its
/// components.
fn matrix_of(columns: u8, rows: u8, data: &Vec<Scalar>) -> (r: Option<UniformUpload>)
    requires
        1 <= columns <= 4,
        1 <= rows <= 4,
    ensures
        r is Some <==> data@.len() == columns * rows,
        r matches Some(u) ==> {
            &&& u.form == UniformForm::Matrix
            &&& u.columns == columns
            &&& u.rows == rows
            &&& u.count == 1
            &&& !u.transpose
            &&& u.payload.base() == UniformBase::Float
            &&& u.payload.words() == scalar_words(data@)
        },
{
    assert(columns * rows <= 16) by (nonlinear_arith)
        requires
            1 <= columns <= 4,
            1 <= rows <= 4,
    ;
    let expected: usize = (columns as usize) * (rows as usize);
    if data.len() != expected {
        return None;
    }
    Some(
        UniformUpload {
            form: UniformForm::Matrix,
            columns,
            rows,
            count: 1,
            transpose: false,
            payload: UniformPayload::Floats(data.clone()),
        },
    )
}

impl AttributeType {
    /// The upload that carries this value, if the value is well formed: the
    /// same shape and components, never transposed.
    pub fn upload(&self) -> (r: Option<UniformUpload>)
        ensures
            r is Some <==> self@.well_formed(),
            r matches Some(u) ==> u@ == self@ && !u.transpose,
    {
        let r = match self {
            AttributeType::Float1(a) => Some(by_value(1, UniformPayload::Floats(vec![*a]))),
            AttributeType::Float2(a, b) => Some(
                by_value(2, UniformPayload::Floats(vec![*a, *b])),
            ),
            AttributeType::Float3(a, b, c) => Some(
                by_value(3, UniformPayload::Floats(vec![*a, *b, *c])),
            ),
            AttributeType::Float4(a, b, c, d) => Some(
                by_value(4, UniformPayload::Floats(vec![*a, *b, *c, *d])),
            ),
            AttributeType::Int1(a) => Some(by_value(1, UniformPayload::Ints(vec![*a]))),
            AttributeType::Int2(a, b) => Some(by_value(2, UniformPayload::Ints(vec![*a, *b]))),
            AttributeType::Int3(a, b, c) => Some(
                by_value(3, UniformPayload::Ints(vec![*a, *b, *c])),
            ),
            AttributeType::Int4(a, b, c, d) => Some(
                by_value(4, UniformPayload::Ints(vec![*a, *b, *c, *d])),
            ),
            AttributeType::UInt1(a) => Some(by_value(1, UniformPayload::UInts(vec![*a]))),
            AttributeType::UInt2(a, b) => Some(by_value(2, UniformPayload::UInts(vec![*a, *b]))),
            AttributeType::UInt3(a, b, c) => Some(
                by_value(3, UniformPayload::UInts(vec![*a, *b, *c])),
            ),
            AttributeType::UInt4(a, b, c, d) => Some(
                by_value(4, UniformPayload::UInts(vec![*a, *b, *c, *d])),
            ),
            AttributeType::VecFloat1(n, v) => array_of(1, *n, UniformPayload::Floats(v.clone())),
            AttributeType::VecFloat2(n, v) => array_of(2, *n, UniformPayload::Floats(v.clone())),
            AttributeType::VecFloat3(n, v) => array_of(3, *n, UniformPayload::Floats(v.clone())),
            AttributeType::VecFloat4(n, v) => array_of(4, *n, UniformPayload::Floats(v.clone())),
            AttributeType::VecInt1(n, v) => array_of(1, *n, UniformPayload::Ints(v.clone())),
            AttributeType::VecInt2(n, v) => array_of(2, *n, UniformPayload::Ints(v.clone())),
            AttributeType::VecInt3(n, v) => array_of(3, *n, UniformPayload::Ints(v.clone())),
            AttributeType::VecInt4(n, v) => array_of(4, *n, UniformPayload::Ints(v.clone())),
            AttributeType::VecUInt1(n, v) => array_of(1, *n, UniformPayload::UInts(v.clone())),
            AttributeType::VecUInt2(n, v) => array_of(2, *n, UniformPayload::UInts(v.clone())),
            AttributeType::VecUInt3(n, v) => array_of(3, *n, UniformPayload::UInts(v.clone())),
            AttributeType::VecUInt4(n, v) => array_of(4, *n, UniformPayload::UInts(v.clone())),
            AttributeType::Matrix2(v) => matrix_of(2, 2, v),
            AttributeType::Matrix3(v) => matrix_of(3, 3, v),
            AttributeType::Matrix4(v) => matrix_of(4, 4, v),
            AttributeType::Matrix2x3(v) => matrix_of(2, 3, v),
            AttributeType::Matrix3x2(v) => matrix_of(3, 2, v),
            AttributeType::Matrix2x4(v) => matrix_of(2, 4, v),
            AttributeType::Matrix4x2(v) => matrix_of(4, 2, v),
            AttributeType::Matrix3x4(v) => matrix_of(3, 4, v),
            AttributeType::Matrix4x3(v) => matrix_of(4, 3, v),
        };
        proof {
            if r is Some {
                assert(r->0@.words =~= self.words());
            }
        }
        r
    }
}

/// The calls that set one uniform of `program`: a single upload of the value,
/// untransposed, under the given name; none at all for a value that is not
/// well formed.
pub open spec fn uniform_call(program: u32, name: Seq<char>, value: UniformValue) -> Seq<
    GpuCallView,
> {
    if value.well_formed() {
        seq![GpuCallView::Uniform { program, name, value, transpose: false }]
    } else {
        Seq::empty()
    }
}

/// The calls that set a list of named uniforms of `program`, first to last.
pub open spec fn uniform_calls(program: u32, attributes: Seq<(Seq<char>, UniformValue)>) -> Seq<
    GpuCallView,
>
    decreases attributes.len(),
{
    if attributes.len() == 0 {
        Seq::empty()
    } else {
        uniform_calls(program, attributes.drop_last()) + uniform_call(
            program,
            attributes.last().0,
            attributes.last().1,
        )
    }
}

/// The calls that bind a list of textures: the texture at position `i` goes to
/// texture unit `i`, in list order.
pub open spec fn texture_unit_calls(textures: Seq<u32>) -> Seq<GpuCallView> {
    Seq::new(
        2 * textures.len(),
        |k: int|
            if k % 2 == 0 {
                GpuCallView::ActiveTexture((k / 2) as nat)
            } else {
                GpuCallView::BindTexture(textures[k / 2])
            },
    )
}

/// The names of a list of textures.
pub open spec fn texture_names(textures: Seq<Texture>) -> Seq<u32> {
    textures.map_values(|t: Texture| t@)
}

/// The mathematical content of a list of named uniform values.
pub open spec fn attribute_views(attributes: Seq<(String, AttributeType)>) -> Seq<
    (Seq<char>, UniformValue),
> {
    attributes.map_values(|a: (String, AttributeType)| (a.0@, a.1@))
}

/// The mathematical content of a list of named uniform values whose names are
/// borrowed.
pub open spec fn borrowed_attribute_views(attributes: Seq<(&str, AttributeType)>) -> Seq<
    (Seq<char>, UniformValue),
> {
    attributes.map_values(|a: (&str, AttributeType)| (a.0@, a.1@))
}

/// What a material is, mathematically.
pub struct MaterialView {
    /// The name of the linked program.
    pub program: u32,
    /// The names of the textures, in the order of their texture units.
    pub textures: Seq<u32>,
    /// The uniforms set on every use, in order.
    pub attributes: Seq<(Seq<char>, UniformValue)>,
    /// Whether the program has been released.
    pub deleted: bool,
}

impl MaterialView {
    /// The calls that make the material current: activate the program, bind
    /// the textures to units 0, 1, 2, … in list order, then set the stored
    /// uniforms.
    pub open spec fn use_calls(self) -> Seq<GpuCallView> {
        seq![GpuCallView::UseProgram(self.program)] + texture_unit_calls(self.textures)
            + uniform_calls(self.program, self.attributes)
    }

    /// The call that releases the program.
    pub open spec fn delete_calls(self) -> Seq<GpuCallView> {
        seq![GpuCallView::DeleteProgram(self.program)]
    }

    /// The material once its program is released.
    pub open spec fn deleted(self) -> MaterialView {
        MaterialView { deleted: true, ..self }
    }
}

/// A program with the textures and uniforms it is used with.
#[derive(Debug, PartialEq, Eq)]
pub struct Material {
    program: u32,
    /// The textures, in the order of their texture units.
    pub textures: Vec<Texture>,
    attributes: Vec<(String, AttributeType)>,
    deleted: bool,
}

impl View for Material {
    type V = MaterialView;

    closed spec fn view(&self) -> MaterialView {
        MaterialView {
            program: self.program,
            textures: texture_names(self.textures@),
            attributes: attribute_views(self.attributes@),
            deleted: self.deleted,
        }
    }
}

/// The calls for one uniform, from borrowed parts.
fn uniform_call_for(program: u32, name: &String, value: &AttributeType) -> (calls: Vec<GpuCall>)
    ensures
        call_views(calls@) == uniform_call(program, name@, value@),
{
    let mut calls: Vec<GpuCall> = Vec::new();
    match value.upload() {
        Some(upload) => {
            calls.push(GpuCall::Uniform { program, name: name.clone(), upload });
        },
        None => {},
    }
    assert(call_views(calls@) =~= uniform_call(program, name@, value@));
    calls
}

/// The calls that set the uniform `n` of program `p` to `t`.
///
/// A well-formed value becomes one upload, of the family, component type,
/// shape and count that its variant stands for, never transposed. Whether the
/// program declares the name is for the driver to find out; an undeclared
/// name makes the upload a no-op there. A value whose payload disagrees with
/// its shape is not uploaded at all.
pub fn set_attribute(p: u32, n: String, t: AttributeType) -> (calls: Vec<GpuCall>)
    ensures
        call_views(calls@) == uniform_call(p, n@, t@),
{
    uniform_call_for(p, &n, &t)
}

/// Extending a list of uniforms by one extends its calls by that one's.
pub proof fn lemma_uniform_calls_push(
    program: u32,
    attributes: Seq<(Seq<char>, UniformValue)>,
    name: Seq<char>,
    value: UniformValue,
)
    ensures
        uniform_calls(program, attributes.push((name, value))) == uniform_calls(
            program,
            attributes,
        ) + uniform_call(program, name, value),
{
    let longer = attributes.push((name, value));
    assert(longer.drop_last() =~= attributes);
}

impl Material {
    /// A material made of a linked program, the textures it samples, in the
    /// order of their texture units, and the uniforms to set on every use.
    pub fn from_shaders(
        program: u32,
        textures: Vec<Texture>,
        attributes: Vec<(&str, AttributeType)>,
    ) -> (m: Material)
        ensures
            m@ == (MaterialView {
                program,
                textures: texture_names(textures@),
                attributes: borrowed_attribute_views(attributes@),
                deleted: false,
            }),
    {
        let ghost given = attributes@;
        let mut owned: Vec<(String, AttributeType)> = Vec::new();
        for pair in it: attributes.into_iter()
            invariant
                it.seq() == given,
                attribute_views(owned@) == borrowed_attribute_views(
                    given.take(it.index() as int),
                ),
        {
            assert(pair == given[it.index() as int]);
            let (n, t) = pair;
            let ghost before = owned@;
            owned.push((n.to_owned(), t));
            proof {
                assert(attribute_views(owned@) =~= attribute_views(before).push((n@, t@)));
                assert(borrowed_attribute_views(given.take(it.index() + 1))
                    =~= borrowed_attribute_views(given.take(it.index() as int)).push((n@, t@)));
            }
        }
        assert(given.take(given.len() as int) =~= given);
        Material { program, textures, attributes: owned, deleted: false }
    }

    /// The calls that make this material current before a draw.
    ///
    /// The material itself is left as it was, so a second use asks for the
    /// same calls again.
    pub fn use_material(&mut self) -> (calls: Vec<GpuCall>)
        requires
            !old(self)@.deleted,
        ensures
            *final(self) == *old(self),
            call_views(calls@) == old(self)@.use_calls(),
    {
        let mut calls: Vec<GpuCall> = Vec::new();
        calls.push(GpuCall::UseProgram(self.program));
        let ghost names = texture_names(self.textures@);
        let mut i: usize = 0;
        while i < self.textures.len()
            invariant
                *self == *old(self),
                names == texture_names(self.textures@),
                i <= self.textures.len(),
                call_views(calls@) == seq![GpuCallView::UseProgram(self.program)]
                    + texture_unit_calls(names.take(i as int)),
            decreases self.textures.len() - i,
        {
            let mut bind = self.textures[i].use_texture(i);
            proof {
                lemma_call_views_add(calls@, bind@);
                assert(texture_unit_calls(names.take(i + 1)) =~= texture_unit_calls(
                    names.take(i as int),
                ) + crate::texture::texture_bind_calls(names[i as int], i as nat));
            }
            calls.append(&mut bind);
            i += 1;
        }
        assert(names.take(i as int) =~= names);
        let ghost bound = calls@;
        let ghost uniforms = attribute_views(self.attributes@);
        let mut j: usize = 0;
        while j < self.attributes.len()
            invariant
                *self == *old(self),
                uniforms == attribute_views(self.attributes@),
                j <= self.attributes.len(),
                call_views(calls@) == call_views(bound) + uniform_calls(
                    self.program,
                    uniforms.take(j as int),
                ),
            decreases self.attributes.len() - j,
        {
            let attribute = &self.attributes[j];
            let mut one = uniform_call_for(self.program, &attribute.0, &attribute.1);
            proof {
                lemma_call_views_add(calls@, one@);
                assert(uniforms.take(j + 1) =~= uniforms.take(j as int).push(uniforms[j as int]));
                lemma_uniform_calls_push(
                    self.program,
                    uniforms.take(j as int),
                    uniforms[j as int].0,
                    uniforms[j as int].1,
                );
            }
            calls.append(&mut one);
            j += 1;
        }
        assert(uniforms.take(j as int) =~= uniforms);
        calls
    }

    /// Whether the program has been released.
    pub fn is_deleted(&self) -> (r: bool)
        ensures
            r == self@.deleted,
    {
        self.deleted
    }

    /// The name of the program.
    pub fn get_program_id(&self) -> (r: u32)
        ensures
            r == self@.program,
    {
        self.program
    }

    /// Marks the program as released and gives the call that releases it.
    pub fn delete(&mut self) -> (calls: Vec<GpuCall>)
        requires
            !old(self)@.deleted,
        ensures
            final(self)@ == old(self)@.deleted(),
            call_views(calls@) == old(self)@.delete_calls(),
    {
        self.deleted = true;
        let mut calls: Vec<GpuCall> = Vec::new();
        calls.push(GpuCall::DeleteProgram(self.program));
        assert(call_views(calls@) =~= old(self)@.delete_calls());
        calls
    }
}

/// Using a material binds its textures to the texture units in the order of
/// its texture list: right after the program is made current, the texture at
/// position `i` of the list is bound to unit `i`, for every position, and the
/// uniforms follow after the last texture.
pub proof fn lemma_textures_bound_in_list_order(material: MaterialView)
    ensures
        material.use_calls()[0] == GpuCallView::UseProgram(material.program),
        forall|i: int|
            #![trigger material.textures[i]]
            0 <= i < material.textures.len() ==> {
                &&& material.use_calls()[1 + 2 * i] == GpuCallView::ActiveTexture(i as nat)
                &&& material.use_calls()[2 + 2 * i] == GpuCallView::BindTexture(
                    material.textures[i],
                )
            },
        material.use_calls().subrange(0, 1 + 2 * material.textures.len() as int)
            == seq![GpuCallView::UseProgram(material.program)] + texture_unit_calls(
            material.textures,
        ),
        material.use_calls().subrange(
            1 + 2 * material.textures.len() as int,
            material.use_calls().len() as int,
        ) == uniform_calls(material.program, material.attributes),
{
    let head = seq![GpuCallView::UseProgram(material.program)] + texture_unit_calls(
        material.textures,
    );
    let tail = uniform_calls(material.program, material.attributes);
    assert(material.use_calls() == head + tail);
    assert forall|i: int|
        #![trigger material.textures[i]]
        0 <= i < material.textures.len() implies {
        &&& material.use_calls()[1 + 2 * i] == GpuCallView::ActiveTexture(i as nat)
        &&& material.use_calls()[2 + 2 * i] == GpuCallView::BindTexture(material.textures[i])
    } by {
        assert(material.use_calls()[1 + 2 * i] == texture_unit_calls(material.textures)[2 * i]);
        assert(material.use_calls()[2 + 2 * i] == texture_unit_calls(material.textures)[2 * i + 1]);
    }
    assert((head + tail).subrange(0, head.len() as int) =~= head);
    assert((head + tail).subrange(head.len() as int, (head + tail).len() as int) =~= tail);
}

} // verus!
