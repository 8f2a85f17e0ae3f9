use vectween::vector::Vector;

#[test]
fn add() {
    let v1 = Vector::new(-1.0, 2.0, -3.0);
    let v2 = Vector::new(6.0, -5.0, 4.0);
    let value = Vector::new(5.0, -3.0, 1.0);
    assert_eq!(v1 + v2, value)
}

#[test]
fn add_assign() {
    let mut v1 = Vector::new(-1.0, 2.0, -3.0);
    v1.add_assign(Vector::new(6.0, -5.0, 4.0));
    let value = Vector::new(5.0, -3.0, 1.0);
    assert_eq!(v1, value)
}

#[test]
fn sub() {
    let v1 = Vector::new(-1.0, 2.0, -3.0);
    let v2 = Vector::new(6.0, -5.0, 4.0);
    let value = Vector::new(-7.0, 7.0, -7.0);
    assert_eq!(v1 - v2, value)
}

#[test]
fn sub_assign() {
    let mut v1 = Vector::new(-1.0, 2.0, -3.0);
    v1.sub_assign(Vector::new(6.0, -5.0, 4.0));
    let value = Vector::new(-7.0, 7.0, -7.0);
    assert_eq!(v1, value)
}

#[test]
fn mul() {
    let v1 = Vector::new(-1.0, 2.0, -3.0);
    let v2 = Vector::new(6.0, -5.0, 4.0);
    let value = Vector::new(-6.0, -10.0, -12.0);
    assert_eq!(v1 * v2, value)
}

#[test]
fn mul_assign() {
    let mut v1 = Vector::new(-1.0, 2.0, -3.0);
    v1.mul_assign(Vector::new(6.0, -5.0, 4.0));
    let value = Vector::new(-6.0, -10.0, -12.0);
    assert_eq!(v1, value)
}

#[test]
fn div() {
    let v1 = Vector::new(-1.0, 2.0, -3.0);
    let v2 = Vector::new(6.0, -5.0, 4.0);
    let value = Vector::new(-1.0 / 6.0, -2.0 / 5.0, -3.0 / 4.0);
    assert_eq!(v1 / v2, value)
}

#[test]
fn div_assign() {
    let mut v1 = Vector::new(-1.0, 2.0, -3.0);
    v1.div_assign(Vector::new(6.0, -5.0, 4.0));
    let value = Vector::new(-1.0 / 6.0, -2.0 / 5.0, -3.0 / 4.0);
    assert_eq!(v1, value)
}

#[test]
fn neg() {
    let v1 = Vector::new(-1.0, 2.0, -3.0);
    let value = Vector::new(1.0, -2.0, 3.0);
    assert_eq!(-v1, value)
}

#[test]
fn dot() {
    let v1 = Vector::new(-1.0, 2.0, -3.0);
    let v2 = Vector::new(6.0, -5.0, 4.0);
    let value = -28.0;
    assert_eq!(Vector::dot(&v1, &v2), value)
}

#[test]
fn cross() {
    let v1 = Vector::new(-1.0, 2.0, -3.0);
    let v2 = Vector::new(6.0, -5.0, 4.0);
    let value = Vector::new(-7.0, -14.0, -7.0);
    assert_eq!(Vector::cross(&v1, &v2), value)
}

#[test]
fn componentwise_ops_match_scalar_arithmetic() {
    let a = Vector::new(-1.5, 2.25, -3.125);
    let b = Vector::new(6.5, -5.75, 4.0625);
    let sum = a + b;
    assert_eq!(sum.x, a.x + b.x);
    assert_eq!(sum.y, a.y + b.y);
    assert_eq!(sum.z, a.z + b.z);
    let difference = a - b;
    assert_eq!(difference.x, a.x - b.x);
    assert_eq!(difference.y, a.y - b.y);
    assert_eq!(difference.z, a.z - b.z);
    let product = a * b;
    assert_eq!(product.x, a.x * b.x);
    assert_eq!(product.y, a.y * b.y);
    assert_eq!(product.z, a.z * b.z);
    let quotient = a / b;
    assert_eq!(quotient.x, a.x / b.x);
    assert_eq!(quotient.y, a.y / b.y);
    assert_eq!(quotient.z, a.z / b.z);
}

#[test]
fn scalar_operand_broadcasts() {
    let a = Vector::new(-1.0, 2.0, -3.0);
    let s = 0.5;
    assert_eq!(a + s, Vector::new(a.x + s, a.y + s, a.z + s));
    assert_eq!(a - s, Vector::new(a.x - s, a.y - s, a.z - s));
    assert_eq!(a * s, Vector::new(a.x * s, a.y * s, a.z * s));
    assert_eq!(a / s, Vector::new(a.x / s, a.y / s, a.z / s));
}

#[test]
fn scalar_assign_ops_broadcast() {
    let mut a = Vector::new(-1.0, 2.0, -3.0);
    a.add_assign_scalar(0.5);
    assert_eq!(a, Vector::new(-0.5, 2.5, -2.5));
    a.sub_assign_scalar(0.5);
    assert_eq!(a, Vector::new(-1.0, 2.0, -3.0));
    a.mul_assign_scalar(2.0);
    assert_eq!(a, Vector::new(-2.0, 4.0, -6.0));
    a.div_assign_scalar(4.0);
    assert_eq!(a, Vector::new(-0.5, 1.0, -1.5));
}

#[test]
fn dot_matches_scalar_formula() {
    let a = Vector::new(-1.5, 2.25, -3.125);
    let b = Vector::new(6.5, -5.75, 4.0625);
    assert_eq!(Vector::dot(&a, &b), a.x * b.x + a.y * b.y + a.z * b.z);
}

#[test]
fn cross_is_anti_commutative() {
    let a = Vector::new(-1.0, 2.0, -3.0);
    let b = Vector::new(6.0, -5.0, 4.0);
    assert_eq!(Vector::cross(&a, &b), -Vector::cross(&b, &a));
    let c = Vector::new(-1i64, 2, -3);
    let d = Vector::new(6i64, -5, 4);
    assert_eq!(Vector::cross(&c, &d), -Vector::cross(&d, &c));
}

#[test]
fn integer_fixtures_are_exact() {
    let v1 = Vector::new(-1i64, 2, -3);
    let v2 = Vector::new(6i64, -5, 4);
    assert_eq!(v1 + v2, Vector::new(5, -3, 1));
    assert_eq!(v1 - v2, Vector::new(-7, 7, -7));
    assert_eq!(v1 * v2, Vector::new(-6, -10, -12));
    assert_eq!(-v1, Vector::new(1, -2, 3));
    assert_eq!(Vector::dot(&v1, &v2), -28);
    assert_eq!(Vector::cross(&v1, &v2), Vector::new(-7, -14, -7));
}

#[test]
fn equality_is_structural() {
    let a = Vector::new(-1.0, 2.0, -3.0);
    let same = Vector::new(-1.0, 2.0, -3.0);
    assert!(a == a);
    assert!(a == same);
    assert!(same == a);
    assert!(a != Vector::new(0.0, 2.0, -3.0));
    assert!(a != Vector::new(-1.0, 0.0, -3.0));
    assert!(a != Vector::new(-1.0, 2.0, 0.0));
}

#[test]
fn renders_as_coordinate_triple() {
    let v = Vector::new(-1i64, 2, -3);
    assert_eq!(v.to_text(), "(-1, 2, -3)");
    let w = Vector::new(0.5, -2.25, 4.0);
    assert_eq!(w.to_text(), "(0.5, -2.25, 4)");
}
