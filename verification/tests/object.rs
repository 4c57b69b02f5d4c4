use meliusgfx::gpu::{BufferTarget, Capability, GpuCall};
use meliusgfx::material::{AttributeType, Material};
use meliusgfx::object::{
    Lifecycle, ObjectManager, BACKGROUND_ALPHA_BITS, BACKGROUND_GRAY_BITS, CORNER_DATA_SIZE,
    CORNER_SLOTS,
};
use meliusgfx::render::ObjectNames;
use meliusgfx::scalar::Scalar;
use meliusgfx::transform::{Factor, Transform};

fn s(x: f32) -> Scalar {
    Scalar::from_bits(x.to_bits())
}

fn b(x: f32) -> u32 {
    x.to_bits()
}

fn names(base: u32) -> ObjectNames {
    ObjectNames { vertex_array: base, vertex_buffer: base + 1, index_buffer: base + 2 }
}

fn positions(n: usize) -> Vec<(Scalar, Scalar, Scalar)> {
    (0..n).map(|i| (s(i as f32), s(0.5), s(-1.0))).collect()
}

fn colors(n: usize) -> Vec<(Scalar, Scalar, Scalar, Scalar)> {
    (0..n).map(|i| (s(1.0), s(0.0), s(i as f32), s(1.0))).collect()
}

fn tex_coords(n: usize) -> Vec<(Scalar, Scalar)> {
    (0..n).map(|i| (s(i as f32), s(0.25))).collect()
}

fn ready() -> ObjectManager {
    let mut m = ObjectManager::new();
    m.init();
    m
}

fn add(m: &mut ObjectManager, program: u32, base: u32, indices: Vec<u32>) -> (u32, Vec<GpuCall>) {
    m.create_object(
        3,
        positions(3),
        colors(3),
        tex_coords(3),
        indices,
        Material::from_shaders(program, vec![], vec![]),
        Transform::identity(),
        names(base),
    )
}

#[test]
fn a_corner_is_nine_numbers_in_three_slots() {
    assert_eq!(CORNER_DATA_SIZE, 9);
    assert_eq!(CORNER_SLOTS, 3);
}

#[test]
fn the_background_is_three_tenths_gray_and_opaque() {
    assert_eq!(BACKGROUND_GRAY_BITS, 0.3f32.to_bits());
    assert_eq!(BACKGROUND_ALPHA_BITS, 1.0f32.to_bits());
}

#[test]
fn a_new_manager_is_uninitialized_and_empty() {
    let m = ObjectManager::new();
    assert_eq!(m.state(), Lifecycle::Uninitialized);
    assert_eq!(m.object_count(), 0);
}

#[test]
fn only_the_first_init_does_anything() {
    let mut m = ObjectManager::new();
    assert_eq!(
        m.init(),
        vec![GpuCall::Enable(Capability::Multisample), GpuCall::Enable(Capability::DepthTest)]
    );
    assert_eq!(m.state(), Lifecycle::Initialized);
    assert_eq!(m.init(), vec![]);
    assert_eq!(m.state(), Lifecycle::Initialized);
    m.terminate();
    assert_eq!(m.init(), vec![]);
    assert_eq!(m.state(), Lifecycle::Terminated);
}

#[test]
fn accepts_asks_for_even_division() {
    assert!(ObjectManager::accepts(3, 3));
    assert!(ObjectManager::accepts(3, 6));
    assert!(ObjectManager::accepts(1, 7));
    assert!(ObjectManager::accepts(4, 0));
    assert!(!ObjectManager::accepts(4, 6));
    assert!(!ObjectManager::accepts(3, 4));
    assert!(!ObjectManager::accepts(7, 3));
    assert!(!ObjectManager::accepts(0, 3));
    assert!(!ObjectManager::accepts(0, 0));
}

#[test]
fn create_object_interleaves_the_corners() {
    let mut m = ready();
    let (id, calls) = add(&mut m, 5, 10, vec![0, 1, 2]);
    assert_eq!(id, 0);
    let mut words = Vec::new();
    for i in 0..3 {
        words.extend(vec![
            b(i as f32),
            b(0.5),
            b(-1.0),
            b(1.0),
            b(0.0),
            b(i as f32),
            b(1.0),
            b(i as f32),
            b(0.25),
        ]);
    }
    assert_eq!(
        calls,
        vec![
            GpuCall::BindVertexArray(10),
            GpuCall::BindBuffer(BufferTarget::Array, 11),
            GpuCall::BufferData(BufferTarget::Array, words),
            GpuCall::EnableVertexAttribArray(0),
            GpuCall::VertexAttribPointer { index: 0, size: 3, stride: 36, offset: 0 },
            GpuCall::EnableVertexAttribArray(1),
            GpuCall::VertexAttribPointer { index: 1, size: 4, stride: 36, offset: 12 },
            GpuCall::EnableVertexAttribArray(2),
            GpuCall::VertexAttribPointer { index: 2, size: 2, stride: 36, offset: 28 },
            GpuCall::BindBuffer(BufferTarget::ElementArray, 12),
            GpuCall::BufferData(BufferTarget::ElementArray, vec![0, 1, 2]),
        ]
    );
    assert_eq!(m.object_count(), 1);
}

#[test]
fn the_stride_is_the_share_of_one_vertex() {
    let mut m = ready();
    let (_, calls) = m.create_object(
        3,
        positions(6),
        colors(6),
        tex_coords(6),
        vec![0, 1, 2],
        Material::from_shaders(1, vec![], vec![]),
        Transform::identity(),
        names(1),
    );
    assert_eq!(calls[4], GpuCall::VertexAttribPointer { index: 0, size: 3, stride: 72, offset: 0 });
    assert_eq!(calls[6], GpuCall::VertexAttribPointer { index: 1, size: 4, stride: 72, offset: 12 });
    assert_eq!(calls[8], GpuCall::VertexAttribPointer { index: 2, size: 2, stride: 72, offset: 28 });
    match &calls[2] {
        GpuCall::BufferData(BufferTarget::Array, words) => assert_eq!(words.len(), 54),
        other => panic!("not an upload: {:?}", other),
    }
}

#[test]
fn colors_beyond_the_positions_are_left_out() {
    let mut m = ready();
    let (_, calls) = m.create_object(
        1,
        positions(1),
        colors(4),
        tex_coords(2),
        vec![0],
        Material::from_shaders(1, vec![], vec![]),
        Transform::identity(),
        names(1),
    );
    assert_eq!(
        calls[2],
        GpuCall::BufferData(
            BufferTarget::Array,
            vec![b(0.0), b(0.5), b(-1.0), b(1.0), b(0.0), b(0.0), b(1.0), b(0.0), b(0.25)]
        )
    );
}

#[test]
fn manager_identifiers_grow_by_one() {
    let mut m = ready();
    for k in 0..4u32 {
        let (id, _) = add(&mut m, k, 3 * k + 1, vec![0, 1, 2]);
        assert_eq!(id, k);
        assert_eq!(m.object_count(), (k + 1) as usize);
    }
}

#[test]
fn the_manager_keeps_each_transform() {
    let mut m = ready();
    add(&mut m, 1, 1, vec![0, 1, 2]);
    m.create_object(
        3,
        positions(3),
        colors(3),
        tex_coords(3),
        vec![0, 1, 2],
        Material::from_shaders(2, vec![], vec![]),
        Transform::with_position((s(1.0), s(2.0), s(3.0))),
        names(4),
    );
    assert_eq!(m.transform(0).factors(), &Vec::<Factor>::new());
    assert_eq!(m.transform(1).factors(), &vec![Factor::Translation(s(1.0), s(2.0), s(3.0))]);
}

#[test]
fn manager_render_clears_to_gray_and_draws_by_index() {
    let mut m = ready();
    add(&mut m, 5, 10, vec![0, 1, 2]);
    m.create_object(
        3,
        positions(3),
        colors(3),
        tex_coords(3),
        vec![2, 1, 0, 0, 1, 2],
        Material::from_shaders(6, vec![], vec![("k", AttributeType::Int1(4))]),
        Transform::identity(),
        names(20),
    );
    let calls = m.render();
    assert_eq!(calls.len(), 11);
    assert_eq!(calls[0], GpuCall::ClearColor(s(0.3), s(0.3), s(0.3), s(1.0)));
    assert_eq!(calls[1], GpuCall::Clear);
    assert_eq!(calls[2], GpuCall::BindVertexArray(10));
    assert_eq!(calls[3], GpuCall::UseProgram(5));
    assert_eq!(calls[4], GpuCall::BindBuffer(BufferTarget::ElementArray, 12));
    assert_eq!(calls[5], GpuCall::DrawElements { count: 3 });
    assert_eq!(calls[6], GpuCall::BindVertexArray(20));
    assert_eq!(calls[7], GpuCall::UseProgram(6));
    assert!(matches!(calls[8], GpuCall::Uniform { program: 6, .. }));
    assert_eq!(calls[9], GpuCall::BindBuffer(BufferTarget::ElementArray, 22));
    assert_eq!(calls[10], GpuCall::DrawElements { count: 6 });
    assert_eq!(m.render(), calls);
}

#[test]
fn manager_resize_viewport_starts_at_the_origin() {
    let mut m = ready();
    assert_eq!(m.resize_viewport(640, 480), vec![GpuCall::Viewport { width: 640, height: 480 }]);
}

#[test]
fn manager_terminate_releases_everything_in_order() {
    let mut m = ready();
    add(&mut m, 5, 10, vec![0, 1, 2]);
    add(&mut m, 6, 20, vec![0, 1, 2]);
    assert_eq!(
        m.terminate(),
        vec![
            GpuCall::DeleteVertexArray(10),
            GpuCall::DeleteBuffer(11),
            GpuCall::DeleteBuffer(12),
            GpuCall::DeleteProgram(5),
            GpuCall::DeleteVertexArray(20),
            GpuCall::DeleteBuffer(21),
            GpuCall::DeleteBuffer(22),
            GpuCall::DeleteProgram(6),
        ]
    );
    assert_eq!(m.state(), Lifecycle::Terminated);
    assert_eq!(m.object_count(), 2);
}
