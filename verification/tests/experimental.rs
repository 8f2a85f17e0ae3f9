use vectween::vector::experimental::Vector;

#[test]
fn experimental_add_is_elementwise() {
    let a = Vector(vec![-1.0, 2.0, -3.0]);
    let b = Vector(vec![6.0, -5.0, 4.0]);
    let sum = a.add(b);
    assert_eq!(sum.0, vec![5.0, -3.0, 1.0]);
}

#[test]
fn experimental_add_stops_at_own_length() {
    let a = Vector(vec![1i64, 2]);
    let b = Vector(vec![10i64, 20, 30]);
    let sum = a.add(b);
    assert_eq!(sum.0, vec![11, 22]);
}

#[test]
fn experimental_components_access() {
    let mut v = Vector(vec![1i64, 2, 3]);
    assert_eq!(v.components().len(), 3);
    v.components_mut().push(4);
    assert_eq!(v.0, vec![1, 2, 3, 4]);
}
