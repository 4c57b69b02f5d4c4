use meliusgfx::scalar::Scalar;
use meliusgfx::transform::{Factor, Transform};

fn s(x: f32) -> Scalar {
    Scalar::from_bits(x.to_bits())
}

fn p() -> (Scalar, Scalar, Scalar) {
    (s(1.0), s(2.0), s(3.0))
}

fn r() -> (Scalar, Scalar, Scalar) {
    (s(90.0), s(45.0), s(30.0))
}

fn k() -> (Scalar, Scalar, Scalar) {
    (s(2.0), s(0.5), s(1.0))
}

#[test]
fn identity_has_no_factor() {
    assert_eq!(Transform::identity().factors(), &Vec::<Factor>::new());
}

#[test]
fn with_position_is_one_translation() {
    assert_eq!(
        Transform::with_position(p()).factors(),
        &vec![Factor::Translation(s(1.0), s(2.0), s(3.0))]
    );
}

#[test]
fn with_rotation_turns_around_x_then_y_then_z() {
    assert_eq!(
        Transform::with_rotation(r()).factors(),
        &vec![Factor::RotationX(s(90.0)), Factor::RotationY(s(45.0)), Factor::RotationZ(s(30.0))]
    );
}

#[test]
fn with_scale_is_one_scaling() {
    assert_eq!(Transform::with_scale(k()).factors(), &vec![Factor::Scale(s(2.0), s(0.5), s(1.0))]);
}

#[test]
fn with_position_and_rotation_translates_first() {
    assert_eq!(
        Transform::with_position_and_rotation(p(), r()).factors(),
        &vec![
            Factor::Translation(s(1.0), s(2.0), s(3.0)),
            Factor::RotationX(s(90.0)),
            Factor::RotationY(s(45.0)),
            Factor::RotationZ(s(30.0)),
        ]
    );
}

#[test]
fn with_position_and_scale_scales_first() {
    assert_eq!(
        Transform::with_position_and_scale(p(), k()).factors(),
        &vec![Factor::Scale(s(2.0), s(0.5), s(1.0)), Factor::Translation(s(1.0), s(2.0), s(3.0))]
    );
}

#[test]
fn with_rotation_and_scale_scales_first() {
    assert_eq!(
        Transform::with_rotation_and_scale(r(), k()).factors(),
        &vec![
            Factor::Scale(s(2.0), s(0.5), s(1.0)),
            Factor::RotationX(s(90.0)),
            Factor::RotationY(s(45.0)),
            Factor::RotationZ(s(30.0)),
        ]
    );
}

#[test]
fn with_position_and_rotation_and_scale_translates_scales_rotates() {
    assert_eq!(
        Transform::with_position_and_rotation_and_scale(p(), r(), k()).factors(),
        &vec![
            Factor::Translation(s(1.0), s(2.0), s(3.0)),
            Factor::Scale(s(2.0), s(0.5), s(1.0)),
            Factor::RotationX(s(90.0)),
            Factor::RotationY(s(45.0)),
            Factor::RotationZ(s(30.0)),
        ]
    );
}
