use scene_graph::math::fx::{fx_add, fx_div, fx_mul, fx_neg, fx_sub, isqrt64, FX_ONE};
use scene_graph::math::mat4::Matrix4;
use scene_graph::math::quaternion::Quaternion;
use scene_graph::math::vec3::Vector3;

const ONE: i32 = 65536;

#[test]
fn test_matrix_index() {
    let mut mat = Matrix4 {
        data: [
            1 * ONE, 2 * ONE, 3 * ONE, 4 * ONE,
            5 * ONE, 6 * ONE, 7 * ONE, 8 * ONE,
            9 * ONE, 10 * ONE, 11 * ONE, 12 * ONE,
            13 * ONE, 14 * ONE, 15 * ONE, 16 * ONE,
        ],
    };

    let i = mat.get(1, 2);

    assert_eq!(i, 10 * ONE);

    mat.set(1, 2, 15 * ONE);

    assert_eq!(mat.get(1, 2), 15 * ONE);
}

#[test]
fn test_matrix_multiplication() {}

#[test]
fn test_matrix_addition() {}

#[test]
fn identity_matrix_entries() {
    let m = Matrix4::identity();
    let expected = [
        ONE, 0, 0, 0,
        0, ONE, 0, 0,
        0, 0, ONE, 0,
        0, 0, 0, ONE,
    ];
    assert_eq!(m.data, expected);
    assert_eq!(Matrix4::default().data, expected);
    assert_eq!(Matrix4::zero().data, [0i32; 16]);
}

#[test]
fn translate_matrix_entries() {
    let m = Matrix4::translate(9 * ONE, 8 * ONE, 7 * ONE);
    let expected = [
        ONE, 0, 0, 0,
        0, ONE, 0, 0,
        0, 0, ONE, 0,
        9 * ONE, 8 * ONE, 7 * ONE, ONE,
    ];
    assert_eq!(m.data, expected);
}

#[test]
fn scale_matrix_entries() {
    let m = Matrix4::scale(2 * ONE, 3 * ONE, ONE / 2);
    let expected = [
        2 * ONE, 0, 0, 0,
        0, 3 * ONE, 0, 0,
        0, 0, ONE / 2, 0,
        0, 0, 0, ONE,
    ];
    assert_eq!(m.data, expected);
    assert_eq!(Matrix4::scale_uniform(3 * ONE).data, Matrix4::scale(3 * ONE, 3 * ONE, 3 * ONE).data);
}

#[test]
fn rotation_of_identity_quaternion_is_identity() {
    let m = Matrix4::rotate(Quaternion::identity());
    assert_eq!(m.data, Matrix4::identity().data);
}

#[test]
fn rotation_matrix_quarter_turn_about_x() {
    // Quaternion (sin 45, 0, 0, cos 45) scaled to fixed point: with the
    // half-angle components at 46341 the squares land exactly on one half.
    let q = Quaternion::new(46341, 0, 0, 46341);
    let m = Matrix4::rotate(q);
    let expected = [
        ONE, 0, 0, 0,
        0, 0, -ONE, 0,
        0, ONE, 0, 0,
        0, 0, 0, ONE,
    ];
    assert_eq!(m.data, expected);
}

#[test]
fn rotation_matrix_quarter_turn_about_y() {
    let q = Quaternion::new(0, 46341, 0, 46341);
    let m = Matrix4::rotate(q);
    let expected = [
        0, 0, ONE, 0,
        0, ONE, 0, 0,
        -ONE, 0, 0, 0,
        0, 0, 0, ONE,
    ];
    assert_eq!(m.data, expected);
}

#[test]
fn multiplying_by_identity_changes_nothing() {
    let m = Matrix4::translate(3 * ONE, -2 * ONE, ONE).mul(&Matrix4::rotate(Quaternion::new(
        46341, 0, 0, 46341,
    )));
    assert_eq!(Matrix4::identity().mul(&m).data, m.data);
    assert_eq!(m.mul(&Matrix4::identity()).data, m.data);
}

#[test]
fn translations_compose_additively() {
    let a = Matrix4::translate(ONE, 2 * ONE, -3 * ONE);
    let b = Matrix4::translate(4 * ONE, -5 * ONE, 6 * ONE);
    let p = a.mul(&b);
    assert_eq!(p.data, Matrix4::translate(5 * ONE, -3 * ONE, 3 * ONE).data);
}

#[test]
fn mul_assign_matches_mul() {
    let a = Matrix4::translate(ONE, 0, 0);
    let b = Matrix4::rotate(Quaternion::new(0, 46341, 0, 46341));
    let product = a.mul(&b);
    let mut c = a;
    c.mul_assign(&b);
    assert_eq!(c.data, product.data);
}

#[test]
fn matrix_addition_is_elementwise() {
    let a = Matrix4::translate(ONE, 2 * ONE, 3 * ONE);
    let b = Matrix4::identity();
    let s = a.add(&b);
    let expected = [
        2 * ONE, 0, 0, 0,
        0, 2 * ONE, 0, 0,
        0, 0, 2 * ONE, 0,
        ONE, 2 * ONE, 3 * ONE, 2 * ONE,
    ];
    assert_eq!(s.data, expected);
    let mut c = a;
    c.add_assign(&b);
    assert_eq!(c.data, expected);
}

#[test]
fn matrix_addition_saturates() {
    let a = Matrix4 { data: [i32::MAX; 16] };
    let s = a.add(&a);
    assert_eq!(s.data, [i32::MAX; 16]);
}

#[test]
fn transpose_swaps_rows_and_columns() {
    let m = Matrix4::translate(ONE, 2 * ONE, 3 * ONE);
    let t = m.transpose();
    let expected = [
        ONE, 0, 0, ONE,
        0, ONE, 0, 2 * ONE,
        0, 0, ONE, 3 * ONE,
        0, 0, 0, ONE,
    ];
    assert_eq!(t.data, expected);
    assert_eq!(t.transpose().data, m.data);
}

#[test]
fn perspective_matrix_entries() {
    // focal 521554, aspect 800/600, near 0.01, far 1000 in fixed point.
    let m = Matrix4::perspective(521554, 87381, 655, 65536000);
    let expected = [
        391166, 0, 0, 0,
        0, 521554, 0, 0,
        0, 0, -65001, -ONE,
        0, 0, -1300, 0,
    ];
    assert_eq!(m.data, expected);
}

#[test]
fn view_matrix_entries() {
    let m = Matrix4::view(
        Vector3::new(0, 0, 15 * ONE),
        Vector3::up(),
        Vector3::forward(),
    );
    let expected = [
        ONE, 0, 0, 0,
        0, ONE, 0, 0,
        0, 0, ONE, 0,
        0, 0, -15 * ONE, ONE,
    ];
    assert_eq!(m.data, expected);
}

#[test]
fn fx_mul_rounds_toward_negative_infinity() {
    // -3/65536 times one half rounds down to -2/65536, not toward zero.
    assert_eq!(fx_mul(-3, ONE / 2), -2);
    assert_eq!(fx_mul(3, ONE / 2), 1);
    assert_eq!(fx_mul(3 * ONE, ONE / 2), 3 * ONE / 2);
    assert_eq!(fx_mul(FX_ONE, FX_ONE), FX_ONE);
}

#[test]
fn fx_mul_saturates() {
    assert_eq!(fx_mul(i32::MAX, 2 * ONE), i32::MAX);
    assert_eq!(fx_mul(i32::MAX, -2 * ONE), i32::MIN);
}

#[test]
fn fx_div_quarter_values() {
    assert_eq!(fx_div(ONE, 3 * ONE), 21845);
    assert_eq!(fx_div(-ONE, 3 * ONE), -21845);
    assert_eq!(fx_div(800, 600), 87381);
}

#[test]
fn fx_add_sub_neg_saturate() {
    assert_eq!(fx_add(i32::MAX, 1), i32::MAX);
    assert_eq!(fx_sub(i32::MIN, 1), i32::MIN);
    assert_eq!(fx_neg(i32::MIN), i32::MAX);
    assert_eq!(fx_add(ONE, 2 * ONE), 3 * ONE);
    assert_eq!(fx_sub(ONE, 2 * ONE), -ONE);
    assert_eq!(fx_neg(5 * ONE), -5 * ONE);
}

#[test]
fn isqrt_exact_values() {
    assert_eq!(isqrt64(0), 0);
    assert_eq!(isqrt64(10), 3);
    assert_eq!(isqrt64(16), 4);
    assert_eq!(isqrt64(u64::MAX), 4294967295);
}

#[test]
fn cos45_squares_to_half() {
    // The constant the rotation tests rely on: 46341^2 lands exactly on one
    // half in fixed point, 46340^2 just below it.
    assert_eq!(fx_mul(46341, 46341), ONE / 2);
    assert_eq!(fx_mul(46340, 46340), ONE / 2 - 2);
}
