use wgpu_app::math::{RectI32, RectU32, Vec2i32, Vec2u32, Vec3i32, Vec3u32, Vec4u32};

#[test]
fn vec2u32_constructors() {
    assert_eq!(Vec2u32::new(3, 4), Vec2u32 { x: 3, y: 4 });
    assert_eq!(Vec2u32::all(7), Vec2u32 { x: 7, y: 7 });
    assert_eq!(Vec2u32::default(), Vec2u32 { x: 0, y: 0 });
}

#[test]
fn vec2u32_length_squared() {
    assert_eq!(Vec2u32::new(3, 4).length_squared(), 25);
    assert_eq!(Vec2u32::new(0, 0).length_squared(), 0);
    assert_eq!(Vec2u32::new(65535, 0).length_squared(), 4294836225);
}

#[test]
fn vec2u32_arithmetic() {
    let a = Vec2u32::new(10, 20);
    let b = Vec2u32::new(3, 4);
    assert_eq!(a + b, Vec2u32::new(13, 24));
    assert_eq!(a - b, Vec2u32::new(7, 16));
    assert_eq!(a * b, Vec2u32::new(30, 80));
    assert_eq!(a / b, Vec2u32::new(3, 5));
    assert_eq!(a / 3u32, Vec2u32::new(3, 6));
    assert_eq!(Vec2u32::new(u32::MAX - 1, 0) + Vec2u32::new(1, 0), Vec2u32::new(u32::MAX, 0));
}

#[test]
fn vec2u32_assign_ops() {
    let mut a = Vec2u32::new(10, 20);
    a += Vec2u32::new(1, 2);
    assert_eq!(a, Vec2u32::new(11, 22));
    a -= Vec2u32::new(11, 2);
    assert_eq!(a, Vec2u32::new(0, 20));
}

#[test]
fn vec2u32_add_then_sub_law() {
    let a = Vec2u32::new(123, 456);
    let b = Vec2u32::new(1000, 7);
    assert_eq!((a + b) - b, a);
    assert_eq!(a + b, b + a);
    assert_eq!((b - a) + a, b - a + a);
}

#[test]
fn vec2u32_from_vec2i32_reinterprets_bits() {
    assert_eq!(Vec2u32::from(Vec2i32::new(5, -1)), Vec2u32::new(5, u32::MAX));
    assert_eq!(Vec2u32::from(Vec2i32::new(i32::MIN, 0)), Vec2u32::new(2147483648, 0));
}

#[test]
fn vec2i32_constructors() {
    assert_eq!(Vec2i32::new(-3, 4), Vec2i32 { x: -3, y: 4 });
    assert_eq!(Vec2i32::all(-7), Vec2i32 { x: -7, y: -7 });
}

#[test]
fn vec2i32_length_squared() {
    assert_eq!(Vec2i32::new(-3, 4).length_squared(), 25);
    assert_eq!(Vec2i32::new(-46340, 0).length_squared(), 2147395600);
}

#[test]
fn vec2i32_arithmetic() {
    let a = Vec2i32::new(10, -20);
    let b = Vec2i32::new(-3, 4);
    assert_eq!(a + b, Vec2i32::new(7, -16));
    assert_eq!(a - b, Vec2i32::new(13, -24));
    assert_eq!(-a, Vec2i32::new(-10, 20));
    assert_eq!(-(-a), a);
    assert_eq!(a - b, a + (-b));
    assert_eq!((a + b) - b, a);
}

#[test]
fn vec2i32_division_rounds_toward_zero() {
    assert_eq!(Vec2i32::new(7, -7) / 2, Vec2i32::new(3, -3));
    assert_eq!(Vec2i32::new(7, -7) / -2, Vec2i32::new(-3, 3));
    assert_eq!(Vec2i32::new(i32::MIN, 1) / 2, Vec2i32::new(-1073741824, 0));
}

#[test]
fn vec2i32_assign_ops() {
    let mut a = Vec2i32::new(1, 1);
    a += Vec2i32::new(-5, 5);
    assert_eq!(a, Vec2i32::new(-4, 6));
    a -= Vec2i32::new(-4, 10);
    assert_eq!(a, Vec2i32::new(0, -4));
}

#[test]
fn vec2i32_from_vec2u32_reinterprets_bits() {
    assert_eq!(Vec2i32::from(Vec2u32::new(5, u32::MAX)), Vec2i32::new(5, -1));
    assert_eq!(Vec2i32::from(Vec2u32::new(2147483648, 0)), Vec2i32::new(i32::MIN, 0));
}

#[test]
fn conversions_roundtrip() {
    for v in [Vec2u32::new(0, 1), Vec2u32::new(u32::MAX, 2147483648), Vec2u32::new(2147483647, 12)] {
        assert_eq!(Vec2u32::from(Vec2i32::from(v)), v);
    }
    for v in [Vec2i32::new(0, -1), Vec2i32::new(i32::MIN, i32::MAX), Vec2i32::new(-12, 12)] {
        assert_eq!(Vec2i32::from(Vec2u32::from(v)), v);
    }
}

#[test]
fn vec3_and_vec4() {
    let a = Vec3u32 { x: 1, y: 2, z: 3 };
    let b = Vec3i32 { x: -1, y: 2, z: -3 };
    assert_eq!(a, Vec3u32 { x: 1, y: 2, z: 3 });
    assert_eq!(b.x + b.z, -4);
    assert_eq!(Vec4u32::new(1, 2, 3, 4), Vec4u32 { x: 1, y: 2, z: 3, w: 4 });
    assert_eq!(Vec4u32::all(9), Vec4u32 { x: 9, y: 9, z: 9, w: 9 });
}

#[test]
fn rect_u32_intersects() {
    let a = RectU32::new(Vec2u32::new(0, 0), Vec2u32::new(10, 10));
    let b = RectU32::new(Vec2u32::new(5, 5), Vec2u32::new(10, 10));
    let c = RectU32::new(Vec2u32::new(10, 0), Vec2u32::new(5, 5));
    let d = RectU32::new(Vec2u32::new(3, 3), Vec2u32::new(0, 0));
    assert!(a.intersects(&b));
    assert!(b.intersects(&a));
    // Touching edges do not count.
    assert!(!a.intersects(&c));
    assert!(!c.intersects(&a));
    // A zero-sized rectangle strictly inside another one does count.
    assert!(a.intersects(&d));
    assert!(d.intersects(&a));
    assert!(a.intersects(&a));
    assert!(!d.intersects(&d));
}

#[test]
fn rect_u32_center() {
    let r = RectU32::new(Vec2u32::new(10, 20), Vec2u32::new(5, 8));
    assert_eq!(r.center(), Vec2u32::new(12, 24));
    assert_eq!(RectU32::new(Vec2u32::new(1, 1), Vec2u32::new(0, 1)).center(), Vec2u32::new(1, 1));
}

#[test]
fn rect_i32_intersects() {
    let a = RectI32::new(Vec2i32::new(-10, -10), Vec2i32::new(10, 10));
    let b = RectI32::new(Vec2i32::new(-1, -1), Vec2i32::new(5, 5));
    let c = RectI32::new(Vec2i32::new(0, -10), Vec2i32::new(5, 5));
    assert!(a.intersects(&b));
    assert!(b.intersects(&a));
    assert!(!a.intersects(&c));
    assert!(!c.intersects(&a));
}

#[test]
fn rect_i32_center() {
    let r = RectI32::new(Vec2i32::new(-10, 20), Vec2i32::new(5, -7));
    assert_eq!(r.center(), Vec2i32::new(-8, 17));
}

#[test]
fn rect_conversion() {
    let r = RectU32::new(Vec2u32::new(1, u32::MAX), Vec2u32::new(3, 4));
    let s = RectI32::from(r);
    assert_eq!(s, RectI32::new(Vec2i32::new(1, -1), Vec2i32::new(3, 4)));
    let a = RectU32::new(Vec2u32::new(0, 0), Vec2u32::new(10, 10));
    let b = RectU32::new(Vec2u32::new(5, 5), Vec2u32::new(10, 10));
    assert_eq!(RectI32::from(a).intersects(&RectI32::from(b)), a.intersects(&b));
}
