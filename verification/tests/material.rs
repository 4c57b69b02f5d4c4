use meliusgfx::gpu::{GpuCall, UniformForm, UniformPayload, UniformUpload};
use meliusgfx::material::{set_attribute, AttributeType, Material};
use meliusgfx::scalar::Scalar;
use meliusgfx::texture::{FilteringType, Texture, TextureData, WrappingType};

fn s(x: f32) -> Scalar {
    Scalar::from_bits(x.to_bits())
}

fn floats(n: usize) -> Vec<Scalar> {
    (0..n).map(|i| s(i as f32)).collect()
}

fn texture(name: u32) -> Texture {
    let data = TextureData { width: 1, height: 1, data: vec![1, 2, 3] };
    Texture::new(WrappingType::Repeat, FilteringType::Linear, FilteringType::Linear, 0, data, name)
        .unwrap()
        .0
}

fn upload_of(value: AttributeType) -> UniformUpload {
    let calls = set_attribute(1, String::from("u"), value);
    assert_eq!(calls.len(), 1);
    match &calls[0] {
        GpuCall::Uniform { program, name, upload } => {
            assert_eq!(*program, 1);
            assert_eq!(name, "u");
            upload.clone()
        }
        other => panic!("not an upload: {:?}", other),
    }
}

fn shape_of(value: AttributeType) -> (UniformForm, u8, u8, i32, bool) {
    let u = upload_of(value);
    (u.form, u.columns, u.rows, u.count, u.transpose)
}

#[test]
fn set_attribute_names_program_and_uniform() {
    let calls = set_attribute(42, String::from("time"), AttributeType::Float1(s(0.1)));
    assert_eq!(
        calls,
        vec![GpuCall::Uniform {
            program: 42,
            name: String::from("time"),
            upload: UniformUpload {
                form: UniformForm::Values,
                columns: 1,
                rows: 1,
                count: 1,
                transpose: false,
                payload: UniformPayload::Floats(vec![s(0.1)]),
            },
        }]
    );
}

#[test]
fn float_values_go_by_value() {
    assert_eq!(shape_of(AttributeType::Float1(s(1.0))), (UniformForm::Values, 1, 1, 1, false));
    assert_eq!(shape_of(AttributeType::Float2(s(1.0), s(2.0))), (UniformForm::Values, 2, 1, 1, false));
    assert_eq!(
        shape_of(AttributeType::Float3(s(1.0), s(2.0), s(3.0))),
        (UniformForm::Values, 3, 1, 1, false)
    );
    assert_eq!(
        shape_of(AttributeType::Float4(s(1.0), s(2.0), s(3.0), s(4.0))),
        (UniformForm::Values, 4, 1, 1, false)
    );
    assert_eq!(
        upload_of(AttributeType::Float4(s(1.0), s(2.0), s(3.0), s(4.0))).payload,
        UniformPayload::Floats(vec![s(1.0), s(2.0), s(3.0), s(4.0)])
    );
}

#[test]
fn int_values_go_by_value() {
    assert_eq!(upload_of(AttributeType::Int1(-7)).payload, UniformPayload::Ints(vec![-7]));
    assert_eq!(upload_of(AttributeType::Int2(1, -2)).payload, UniformPayload::Ints(vec![1, -2]));
    assert_eq!(upload_of(AttributeType::Int3(1, 2, 3)).payload, UniformPayload::Ints(vec![1, 2, 3]));
    assert_eq!(
        upload_of(AttributeType::Int4(1, 2, 3, i32::MIN)).payload,
        UniformPayload::Ints(vec![1, 2, 3, i32::MIN])
    );
    assert_eq!(shape_of(AttributeType::Int3(1, 2, 3)), (UniformForm::Values, 3, 1, 1, false));
}

#[test]
fn unsigned_values_go_by_value() {
    assert_eq!(upload_of(AttributeType::UInt1(7)).payload, UniformPayload::UInts(vec![7]));
    assert_eq!(upload_of(AttributeType::UInt2(1, 2)).payload, UniformPayload::UInts(vec![1, 2]));
    assert_eq!(upload_of(AttributeType::UInt3(1, 2, 3)).payload, UniformPayload::UInts(vec![1, 2, 3]));
    assert_eq!(
        upload_of(AttributeType::UInt4(1, 2, 3, u32::MAX)).payload,
        UniformPayload::UInts(vec![1, 2, 3, u32::MAX])
    );
    assert_eq!(shape_of(AttributeType::UInt4(1, 2, 3, 4)), (UniformForm::Values, 4, 1, 1, false));
}

#[test]
fn arrays_carry_their_count() {
    assert_eq!(shape_of(AttributeType::VecFloat1(5, floats(5))), (UniformForm::Array, 1, 1, 5, false));
    assert_eq!(shape_of(AttributeType::VecFloat2(3, floats(6))), (UniformForm::Array, 2, 1, 3, false));
    assert_eq!(shape_of(AttributeType::VecFloat3(2, floats(6))), (UniformForm::Array, 3, 1, 2, false));
    assert_eq!(shape_of(AttributeType::VecFloat4(1, floats(4))), (UniformForm::Array, 4, 1, 1, false));
    assert_eq!(shape_of(AttributeType::VecInt1(2, vec![1, 2])), (UniformForm::Array, 1, 1, 2, false));
    assert_eq!(shape_of(AttributeType::VecInt2(1, vec![1, 2])), (UniformForm::Array, 2, 1, 1, false));
    assert_eq!(shape_of(AttributeType::VecInt3(1, vec![1, 2, 3])), (UniformForm::Array, 3, 1, 1, false));
    assert_eq!(
        shape_of(AttributeType::VecInt4(2, vec![1, 2, 3, 4, 5, 6, 7, 8])),
        (UniformForm::Array, 4, 1, 2, false)
    );
    assert_eq!(shape_of(AttributeType::VecUInt1(1, vec![9])), (UniformForm::Array, 1, 1, 1, false));
    assert_eq!(shape_of(AttributeType::VecUInt2(2, vec![1, 2, 3, 4])), (UniformForm::Array, 2, 1, 2, false));
    assert_eq!(shape_of(AttributeType::VecUInt3(1, vec![1, 2, 3])), (UniformForm::Array, 3, 1, 1, false));
    assert_eq!(shape_of(AttributeType::VecUInt4(1, vec![1, 2, 3, 4])), (UniformForm::Array, 4, 1, 1, false));
    assert_eq!(
        upload_of(AttributeType::VecInt2(2, vec![1, -2, 3, -4])).payload,
        UniformPayload::Ints(vec![1, -2, 3, -4])
    );
    assert_eq!(
        upload_of(AttributeType::VecUInt3(1, vec![7, 8, 9])).payload,
        UniformPayload::UInts(vec![7, 8, 9])
    );
    assert_eq!(upload_of(AttributeType::VecFloat2(3, floats(6))).payload, UniformPayload::Floats(floats(6)));
}

#[test]
fn an_empty_array_is_still_an_upload() {
    assert_eq!(shape_of(AttributeType::VecFloat3(0, vec![])), (UniformForm::Array, 3, 1, 0, false));
}

#[test]
fn matrices_are_named_by_columns_then_rows_and_never_transposed() {
    assert_eq!(shape_of(AttributeType::Matrix2(floats(4))), (UniformForm::Matrix, 2, 2, 1, false));
    assert_eq!(shape_of(AttributeType::Matrix3(floats(9))), (UniformForm::Matrix, 3, 3, 1, false));
    assert_eq!(shape_of(AttributeType::Matrix4(floats(16))), (UniformForm::Matrix, 4, 4, 1, false));
    assert_eq!(shape_of(AttributeType::Matrix2x3(floats(6))), (UniformForm::Matrix, 2, 3, 1, false));
    assert_eq!(shape_of(AttributeType::Matrix3x2(floats(6))), (UniformForm::Matrix, 3, 2, 1, false));
    assert_eq!(shape_of(AttributeType::Matrix2x4(floats(8))), (UniformForm::Matrix, 2, 4, 1, false));
    assert_eq!(shape_of(AttributeType::Matrix4x2(floats(8))), (UniformForm::Matrix, 4, 2, 1, false));
    assert_eq!(shape_of(AttributeType::Matrix3x4(floats(12))), (UniformForm::Matrix, 3, 4, 1, false));
    assert_eq!(shape_of(AttributeType::Matrix4x3(floats(12))), (UniformForm::Matrix, 4, 3, 1, false));
    assert_eq!(upload_of(AttributeType::Matrix4(floats(16))).payload, UniformPayload::Floats(floats(16)));
}

#[test]
fn a_payload_of_the_wrong_length_is_not_uploaded() {
    assert_eq!(set_attribute(1, String::from("u"), AttributeType::Matrix4(floats(15))), vec![]);
    assert_eq!(set_attribute(1, String::from("u"), AttributeType::Matrix4(floats(17))), vec![]);
    assert_eq!(set_attribute(1, String::from("u"), AttributeType::Matrix2x3(floats(4))), vec![]);
    assert_eq!(set_attribute(1, String::from("u"), AttributeType::Matrix3x4(floats(9))), vec![]);
    assert_eq!(set_attribute(1, String::from("u"), AttributeType::VecFloat3(2, floats(5))), vec![]);
    assert_eq!(set_attribute(1, String::from("u"), AttributeType::VecFloat3(2, floats(7))), vec![]);
    assert_eq!(set_attribute(1, String::from("u"), AttributeType::VecInt2(1, vec![1])), vec![]);
    assert_eq!(set_attribute(1, String::from("u"), AttributeType::VecUInt4(1, vec![1, 2, 3, 4, 5])), vec![]);
}

#[test]
fn a_negative_count_is_not_uploaded() {
    assert_eq!(set_attribute(1, String::from("u"), AttributeType::VecFloat1(-1, vec![])), vec![]);
    assert_eq!(set_attribute(1, String::from("u"), AttributeType::VecInt4(i32::MIN, vec![])), vec![]);
}

#[test]
fn upload_is_none_exactly_for_malformed_values() {
    assert!(AttributeType::Matrix3(floats(9)).upload().is_some());
    assert!(AttributeType::Matrix3(floats(8)).upload().is_none());
    assert!(AttributeType::VecUInt2(i32::MAX, vec![]).upload().is_none());
    assert!(AttributeType::Float1(s(0.0)).upload().is_some());
}

#[test]
fn use_material_binds_textures_in_list_order() {
    let mut material = Material::from_shaders(
        9,
        vec![texture(30), texture(10), texture(20)],
        vec![("time", AttributeType::Float1(s(0.5)))],
    );
    let calls = material.use_material();
    assert_eq!(calls.len(), 8);
    assert_eq!(calls[0], GpuCall::UseProgram(9));
    assert_eq!(calls[1], GpuCall::ActiveTexture(0));
    assert_eq!(calls[2], GpuCall::BindTexture(30));
    assert_eq!(calls[3], GpuCall::ActiveTexture(1));
    assert_eq!(calls[4], GpuCall::BindTexture(10));
    assert_eq!(calls[5], GpuCall::ActiveTexture(2));
    assert_eq!(calls[6], GpuCall::BindTexture(20));
    assert_eq!(calls[7], set_attribute(9, String::from("time"), AttributeType::Float1(s(0.5)))[0]);
}

#[test]
fn use_material_sets_stored_uniforms_in_order() {
    let mut material = Material::from_shaders(
        3,
        vec![],
        vec![
            ("a", AttributeType::Int1(1)),
            ("broken", AttributeType::Matrix2(floats(3))),
            ("b", AttributeType::UInt2(2, 3)),
            ("a", AttributeType::Int1(4)),
        ],
    );
    let calls = material.use_material();
    let mut expected = vec![GpuCall::UseProgram(3)];
    expected.extend(set_attribute(3, String::from("a"), AttributeType::Int1(1)));
    expected.extend(set_attribute(3, String::from("b"), AttributeType::UInt2(2, 3)));
    expected.extend(set_attribute(3, String::from("a"), AttributeType::Int1(4)));
    assert_eq!(calls, expected);
    assert_eq!(calls.len(), 4);
}

#[test]
fn use_material_with_nothing_only_activates_the_program() {
    let mut material = Material::from_shaders(5, vec![], vec![]);
    assert_eq!(material.use_material(), vec![GpuCall::UseProgram(5)]);
}

#[test]
fn use_material_asks_the_same_every_time() {
    let mut material = Material::from_shaders(
        9,
        vec![texture(1), texture(2)],
        vec![("k", AttributeType::Float2(s(1.0), s(2.0)))],
    );
    let first = material.use_material();
    let second = material.use_material();
    assert_eq!(first, second);
    assert!(!material.is_deleted());
}

#[test]
fn material_keeps_program_and_textures() {
    let material = Material::from_shaders(77, vec![texture(4), texture(5)], vec![]);
    assert_eq!(material.get_program_id(), 77);
    assert_eq!(material.textures.len(), 2);
    assert_eq!(material.textures[0].name(), 4);
    assert_eq!(material.textures[1].name(), 5);
    assert!(!material.is_deleted());
}

#[test]
fn delete_releases_the_program() {
    let mut material = Material::from_shaders(77, vec![texture(4)], vec![]);
    assert_eq!(material.delete(), vec![GpuCall::DeleteProgram(77)]);
    assert!(material.is_deleted());
    assert_eq!(material.get_program_id(), 77);
}
