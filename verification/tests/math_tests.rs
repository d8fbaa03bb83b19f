use gloom::math::{Mat4, Rot, Vec3, ENTRY_MAX, SCALE};

#[test]
fn identity_is_neutral() {
    let i = Mat4::identity();
    let t = Mat4::translation(Vec3::new(3 * SCALE, -2 * SCALE, 7 * SCALE));
    assert_eq!(i.mul(&t).unwrap(), t);
    assert_eq!(t.mul(&i).unwrap(), t);
    assert_eq!(i.mul(&i).unwrap(), i);
}

#[test]
fn translations_compose_by_addition() {
    let a = Mat4::translation(Vec3::new(SCALE, 2 * SCALE, 3 * SCALE));
    let b = Mat4::translation(Vec3::new(10 * SCALE, -5 * SCALE, 1));
    let ab = a.mul(&b).unwrap();
    assert_eq!(ab, Mat4::translation(Vec3::new(11 * SCALE, -3 * SCALE, 3 * SCALE + 1)));
}

#[test]
fn zero_rotation_is_identity() {
    let rz = Mat4::rotation_z(Rot::zero());
    let ry = Mat4::rotation_y(Rot::zero());
    let rx = Mat4::rotation_x(Rot::zero());
    assert_eq!(rz, Mat4::identity());
    assert_eq!(ry, Mat4::identity());
    assert_eq!(rx, Mat4::identity());
}

#[test]
fn quarter_turn_moves_translation_column() {
    // A quarter turn about Z: cosine 0, sine 1.
    let r = Mat4::rotation_z(Rot::new(0, SCALE));
    let t = Mat4::translation(Vec3::new(5 * SCALE, 0, 0));
    // Rotate, then translate: the offset stays (5, 0, 0).
    let translate_after = t.mul(&r).unwrap();
    assert_eq!(translate_after.e03, 5 * SCALE);
    assert_eq!(translate_after.e13, 0);
    // Translate, then rotate: the offset is rotated to (0, 5, 0).
    let rotate_after = r.mul(&t).unwrap();
    assert_eq!(rotate_after.e03, 0);
    assert_eq!(rotate_after.e13, 5 * SCALE);
    // Composition order matters: the two products differ.
    assert_ne!(translate_after, rotate_after);
}

#[test]
fn rotation_about_translation_axis_commutes() {
    // A turn about X with a translation along X: the rotation fixes the
    // offset, so both orders agree.
    let r = Mat4::rotation_x(Rot::new(0, SCALE));
    let t = Mat4::translation(Vec3::new(5 * SCALE, 0, 0));
    assert_eq!(t.mul(&r).unwrap(), r.mul(&t).unwrap());
}

#[test]
fn product_too_large_is_refused() {
    let big = Mat4::translation(Vec3::new(ENTRY_MAX, ENTRY_MAX, ENTRY_MAX));
    // Entries of the product exceed the representable range.
    assert!(big.mul(&big).is_none());
}

#[test]
fn scaled_product_rounds_down() {
    // Two half-unit scalings: the (0,0) entry is (S/2 * S/2) / S = S/4.
    let mut h = Mat4::identity();
    h.e00 = SCALE / 2;
    let hh = h.mul(&h).unwrap();
    assert_eq!(hh.e00, SCALE / 4);
}
