use raykernel::error::KernelError;
use raykernel::math::normal::Normal;
use raykernel::math::point::Point;
use raykernel::math::ray::Ray;
use raykernel::math::traits::Cross;
use raykernel::math::traits::Dot;
use raykernel::math::traits::Len;
use raykernel::math::traits::LenSq;
use raykernel::math::traits::Normalize;
use raykernel::math::vector::Vector;

#[test]
// is X_AXIS constant correct?
fn test_x_axis_constant() {
    let v = Vector::x_axis();
    assert_eq!(v.x, 1);
    assert_eq!(v.y, 0);
    assert_eq!(v.z, 0);
}

#[test]
// is Y_AXIS constant correct?
fn test_y_axis_constant() {
    let v = Vector::y_axis();
    assert_eq!(v.x, 0);
    assert_eq!(v.y, 1);
    assert_eq!(v.z, 0);
}

#[test]
// is Z_AXIS constant correct?
fn test_z_axis_constant() {
    let v = Vector::z_axis();
    assert_eq!(v.x, 0);
    assert_eq!(v.y, 0);
    assert_eq!(v.z, 1);
}

#[test]
// test vector construction correct
fn vector_test_new() {
    let a: Vector = Vector::new(1, 2, 3);
    assert_eq!(a.x, 1);
    assert_eq!(a.y, 2);
    assert_eq!(a.z, 3);
}

#[test]
// test vector add
fn test_add_trait() {
    let a: Vector = Vector::new(3, 4, 3);
    let b: Vector = Vector::new(9, 2, 4);
    let c: Vector = a.add(b);
    assert_eq!(c.x, 12);
    assert_eq!(c.y, 6);
    assert_eq!(c.z, 7);
}

#[test]
// test adding normal to vector
fn test_add_normal_trait() {
    let v: Vector = Vector::new(1, -2, 3);
    let n: Normal = Normal::new(2, 2, 2);
    let w: Vector = v.add_normal(n);
    assert_eq!(w.x, 3);
    assert_eq!(w.y, 0);
    assert_eq!(w.z, 5);
}

#[test]
// test vector sub
fn test_sub_trait() {
    let a: Vector = Vector::new(1, -4, 11);
    let b: Vector = Vector::new(3, -8, 4);
    let c: Vector = a.sub(b);
    assert_eq!(c.x, -2);
    assert_eq!(c.y, 4);
    assert_eq!(c.z, 7);
}

#[test]
// test vector scaling
fn test_scale_trait() {
    let v: Vector = Vector::new(1, 5, 7);
    let scale: i64 = 2;
    let scaled: Vector = v.scale(scale);
    assert_eq!(scaled.x, 2);
    assert_eq!(scaled.y, 10);
    assert_eq!(scaled.z, 14);
}

#[test]
// test vector negation
fn test_neg_trait() {
    let v: Vector = Vector::new(-5, 2, 7);
    let v_neg: Vector = v.neg();
    assert_eq!(v_neg.x, 5);
    assert_eq!(v_neg.y, -2);
    assert_eq!(v_neg.z, -7);
}

#[test]
// test vector dot vector trait
fn test_v_dot_v_trait() {
    let a: Vector = Vector::new(-1, 3, 5);
    let b: Vector = Vector::new(6, 2, 11);
    let dot: i64 = a.dot(b);
    assert_eq!(dot, 55);
}

#[test]
// test dot product with normal
fn test_dot_n_trait() {
    let v: Vector = Vector::new(1, 2, 3);
    let n: Normal = Normal::new(-3, -2, -1);
    let dot: i64 = v.dot(n);
    assert_eq!(dot, -10);
}

#[test]
// test vector cross product trait
fn test_cross() {
    let a: Vector = Vector::new(3, -3, 1);
    let b: Vector = Vector::new(4, 9, 2);
    let c: Vector = a.cross(b);
    assert_eq!(c.x, -15);
    assert_eq!(c.y, -2);
    assert_eq!(c.z, 39);
}

#[test]
// test vector length squared
fn test_len_sq() {
    let v: Vector = Vector::new(3, 4, 5);
    let len_sq: i64 = v.len_sq();
    assert_eq!(len_sq, 50);
}

#[test]
// the length is the floor square root of the squared length
fn test_len() {
    let v: Vector = Vector::new(3, 4, 5);
    let len: i64 = v.len();
    assert_eq!(len, 7);
    let axis: Vector = Vector::new(0, -9, 0);
    assert_eq!(axis.len(), 9);
}

#[test]
// normalizing divides out the greatest common divisor of the components
fn test_normalize_gcd() {
    let v: Vector = Vector::new(2, 4, 6);
    let u: Vector = v.normalize().unwrap();
    assert_eq!(u.x, 1);
    assert_eq!(u.y, 2);
    assert_eq!(u.z, 3);
    let w: Vector = Vector::new(0, 0, 5);
    let uw: Vector = w.normalize().unwrap();
    assert_eq!(uw.x, 0);
    assert_eq!(uw.y, 0);
    assert_eq!(uw.z, 1);
}

#[test]
// normalizing keeps the sign of every component
fn test_normalize_sign() {
    let v: Vector = Vector::new(-4, 0, 0);
    let u: Vector = v.normalize().unwrap();
    assert_eq!(u.x, -1);
    assert_eq!(u.y, 0);
    assert_eq!(u.z, 0);
}

#[test]
// normalizing the zero vector fails with DivisionByZero
fn test_normalize_zero() {
    let v: Vector = Vector::new(0, 0, 0);
    assert_eq!(v.normalize().unwrap_err(), KernelError::DivisionByZero);
    let n: Normal = Normal::new(0, 0, 0);
    assert_eq!(n.normalize().unwrap_err(), KernelError::DivisionByZero);
}

#[test]
// a normalized vector is parallel to the original: their cross vanishes
fn test_normalize_parallel() {
    let v: Vector = Vector::new(6, -9, 12);
    let u: Vector = v.normalize().unwrap();
    let c: Vector = u.cross(v);
    assert_eq!(c.x, 0);
    assert_eq!(c.y, 0);
    assert_eq!(c.z, 0);
}

#[test]
// the dot product is symmetric and additive in its first argument
fn test_dot_symmetric_bilinear() {
    let a: Vector = Vector::new(2, -3, 5);
    let b: Vector = Vector::new(7, 1, -4);
    let c: Vector = Vector::new(-1, 6, 2);
    assert_eq!(a.dot(b), b.dot(a));
    assert_eq!(a.add(b).dot(c), a.dot(c) + b.dot(c));
    assert_eq!(a.scale(3).dot(c), 3 * a.dot(c));
}

#[test]
// the cross product is anti-commutative and vanishes on equal arguments
fn test_cross_anticommutative() {
    let a: Vector = Vector::new(2, -3, 5);
    let b: Vector = Vector::new(7, 1, -4);
    let ab: Vector = a.cross(b);
    let ba: Vector = b.cross(a);
    assert_eq!(ab.x, -ba.x);
    assert_eq!(ab.y, -ba.y);
    assert_eq!(ab.z, -ba.z);
    let aa: Vector = a.cross(a);
    assert_eq!(aa.x, 0);
    assert_eq!(aa.y, 0);
    assert_eq!(aa.z, 0);
}

#[test]
// should construct normal given (x,y,z) coords
fn normal_test_new() {
    let n: Normal = Normal::new(-8, 5, 2);
    assert_eq!(n.x, -8);
    assert_eq!(n.y, 5);
    assert_eq!(n.z, 2);
}

#[test]
// should correctly negate normal
fn test_neg() {
    let n: Normal = Normal::new(1, -3, 5);
    let n_neg: Normal = n.neg();
    assert_eq!(n_neg.x, -1);
    assert_eq!(n_neg.y, 3);
    assert_eq!(n_neg.z, -5);
}

#[test]
// should correctly scale normal
fn normal_test_scale() {
    let n: Normal = Normal::new(3, -7, 1);
    let n_scale: Normal = n.scale(3);
    assert_eq!(n_scale.x, 9);
    assert_eq!(n_scale.y, -21);
    assert_eq!(n_scale.z, 3);
}

#[test]
// should correctly add two normals
fn test_add() {
    let n: Normal = Normal::new(-1, 2, 3);
    let m: Normal = Normal::new(1, -3, -2);
    let m_plus_n: Normal = n.add(m);
    assert_eq!(m_plus_n.x, 0);
    assert_eq!(m_plus_n.y, -1);
    assert_eq!(m_plus_n.z, 1);
}

#[test]
// should add vector to normal to give vector
fn normal_test_add_vector() {
    let n: Normal = Normal::new(1, -2, 3);
    let v: Vector = Vector::new(-2, 1, 4);
    let w: Vector = n.add_vector(v);
    assert_eq!(w.x, -1);
    assert_eq!(w.y, -1);
    assert_eq!(w.z, 7);
}

#[test]
// should return correct dot product with vector
fn test_dot() {
    let n: Normal = Normal::new(-1, -2, 3);
    let v: Vector = Vector::new(5, 0, 3);
    let dot: i64 = n.dot(v);
    assert_eq!(dot, 4);
}

#[test]
// is ZERO constant correct
fn test_zero_constant() {
    let p = Point::zero();
    assert_eq!(p.x, 0);
    assert_eq!(p.y, 0);
    assert_eq!(p.z, 0);
}

#[test]
// should construct to (x,y,z) point
fn point_test_new() {
    let p: Point = Point::new(1, 2, 3);
    assert_eq!(p.x, 1);
    assert_eq!(p.y, 2);
    assert_eq!(p.z, 3);
}

#[test]
// adding a vector to self should result in a new point
fn point_test_add_vector() {
    let a: Point = Point::new(1, -1, 3);
    let v: Vector = Vector::new(1, 1, 1);
    let b: Point = a.add_vector(v);
    assert_eq!(b.x, 2);
    assert_eq!(b.y, 0);
    assert_eq!(b.z, 4);
}

#[test]
// Subtracting a point from self should result in vector between the two points
fn test_sub() {
    let a: Point = Point::new(1, 2, 3);
    let b: Point = Point::new(-2, 1, 4);
    let v: Vector = a.sub(b);
    assert_eq!(v.x, 3);
    assert_eq!(v.y, 1);
    assert_eq!(v.z, -1);
}

#[test]
// Subtracting a vector from this point should result in a new point
fn test_sub_vector() {
    let a: Point = Point::new(-4, 3, 1);
    let v: Vector = Vector::new(1, -5, 6);
    let b: Point = a.sub_vector(v);
    assert_eq!(b.x, -5);
    assert_eq!(b.y, 8);
    assert_eq!(b.z, -5);
}

#[test]
// squared distance between two points should be the squared length of
// the vector from self to the second point
fn test_distance_sq() {
    let a: Point = Point::new(3, -7, 1);
    let b: Point = Point::new(-5, 2, 7);
    let len_sq = a.distance_sq(b);
    assert_eq!(len_sq, 181);
}

#[test]
// the distance is the floor square root of the squared distance
fn test_distance() {
    let a: Point = Point::new(0, 0, 0);
    let b: Point = Point::new(1, 1, 0);
    let len = a.distance(b);
    assert_eq!(len, 1);
    let c: Point = Point::new(3, 4, 0);
    assert_eq!(a.distance(c), 5);
}

#[test]
// should construct correctly
fn ray_test_new() {
    let o: Point = Point::new(1, 2, 3);
    let d: Vector = Vector::new(-4, 5, -7);
    let r: Ray = Ray::new(&o, &d);
    // origin
    assert_eq!(r.o.x, 1);
    assert_eq!(r.o.y, 2);
    assert_eq!(r.o.z, 3);
    // direction
    assert_eq!(r.d.x, -4);
    assert_eq!(r.d.y, 5);
    assert_eq!(r.d.z, -7);
}

#[test]
// should get correct point on ray
fn ray_test_at() {
    let o: Point = Point::new(2, -1, 0);
    let d: Vector = Vector::new(1, 2, 3);
    let r: Ray = Ray::new(&o, &d);
    let t: i64 = 2;
    let p = r.at(t);
    assert_eq!(p.x, 4);
    assert_eq!(p.y, 3);
    assert_eq!(p.z, 6);
}
