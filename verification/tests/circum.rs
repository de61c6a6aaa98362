use tetmesh::{CircumcircleSide, CircumsphereSide, Point2, Point3, circumcircle_side,
    circumsphere_side};

#[test]
fn testing_circumcircle_classification() {
    let a = Point2::new(0, 0);
    let b = Point2::new(2, 0);
    let c = Point2::new(0, 2);

    // The circumcircle has center (1, 1) and squared radius 2.
    assert_eq!(CircumcircleSide::Inside, circumcircle_side(&a, &b, &c, &Point2::new(1, 1)));
    assert_eq!(CircumcircleSide::Outside, circumcircle_side(&a, &b, &c, &Point2::new(5, 5)));
    assert_eq!(CircumcircleSide::OnCircle, circumcircle_side(&a, &b, &c, &Point2::new(2, 2)));
}

#[test]
fn testing_circumcircle_orientation_invariance() {
    let a = Point2::new(0, 0);
    let b = Point2::new(2, 0);
    let c = Point2::new(0, 2);
    let p = Point2::new(1, 1);

    assert_eq!(CircumcircleSide::Inside, circumcircle_side(&a, &b, &c, &p));
    assert_eq!(CircumcircleSide::Inside, circumcircle_side(&a, &c, &b, &p));
    assert_eq!(CircumcircleSide::Inside, circumcircle_side(&b, &c, &a, &p));
}

#[test]
fn testing_circumcircle_degenerate_triple() {
    let a = Point2::new(0, 0);
    let b = Point2::new(1, 0);
    let c = Point2::new(2, 0);

    assert_eq!(CircumcircleSide::OnCircle, circumcircle_side(&a, &b, &c, &Point2::new(7, 9)));
}

#[test]
fn testing_circumsphere_classification() {
    let a = Point3::new(0, 0, 0);
    let b = Point3::new(2, 0, 0);
    let c = Point3::new(0, 2, 0);
    let d = Point3::new(0, 0, 2);

    // The circumsphere has center (1, 1, 1) and squared radius 3.
    assert_eq!(
        CircumsphereSide::Inside,
        circumsphere_side(&a, &b, &c, &d, &Point3::new(1, 1, 1))
    );
    assert_eq!(
        CircumsphereSide::Outside,
        circumsphere_side(&a, &b, &c, &d, &Point3::new(5, 5, 5))
    );
    assert_eq!(
        CircumsphereSide::OnSphere,
        circumsphere_side(&a, &b, &c, &d, &Point3::new(2, 2, 0))
    );
}

#[test]
fn testing_circumsphere_orientation_invariance() {
    let a = Point3::new(0, 0, 0);
    let b = Point3::new(2, 0, 0);
    let c = Point3::new(0, 2, 0);
    let d = Point3::new(0, 0, 2);
    let p = Point3::new(1, 1, 1);

    assert_eq!(CircumsphereSide::Inside, circumsphere_side(&a, &b, &c, &d, &p));
    assert_eq!(CircumsphereSide::Inside, circumsphere_side(&a, &c, &b, &d, &p));
    assert_eq!(CircumsphereSide::Inside, circumsphere_side(&d, &b, &c, &a, &p));
}
