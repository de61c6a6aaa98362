use tetmesh::{Point2, Point3, SideOfLine, SideOfPlane, side_of_line, side_of_plane, sort_3};
use tetmesh::N3Index;

#[test]
fn testing_simplest_plane() {
    let a = Point3::new(0, 0, 0);
    let b = Point3::new(0, 2, 0);
    let c = Point3::new(2, 0, 0);

    assert_eq!(SideOfPlane::OnPlane, side_of_plane(&a, &b, &c, &Point3::new(1, 1, 0)));
    assert_eq!(SideOfPlane::OnPlane, side_of_plane(&a, &b, &c, &Point3::new(1, -10000, 0)));
    assert_eq!(SideOfPlane::OnPlane, side_of_plane(&a, &b, &c, &Point3::new(1000, -4000, 0)));

    assert_eq!(SideOfPlane::Left, side_of_plane(&a, &b, &c, &Point3::new(0, 0, -2)));
    assert_eq!(SideOfPlane::Left, side_of_plane(&a, &b, &c, &Point3::new(100, 100, -2)));

    assert_eq!(SideOfPlane::Right, side_of_plane(&a, &b, &c, &Point3::new(0, 0, 2)));
    assert_eq!(SideOfPlane::Right, side_of_plane(&a, &b, &c, &Point3::new(100, 100, 2)));
}

#[test]
fn testing_random_plane() {
    let a = Point3::new(15, 30, 36);
    let b = Point3::new(24, 30, 33);
    let c = Point3::new(9, 9, 6);

    let center = Point3::new(
        (a.x + b.x + c.x) / 3,
        (a.y + b.y + c.y) / 3,
        (a.z + b.z + c.z) / 3,
    );

    assert_eq!(SideOfPlane::OnPlane, side_of_plane(&a, &b, &c, &center));
}

#[test]
fn testing_ordering() {
    let a = Point3::new(0, 0, 0);
    let b = Point3::new(0, 1, 0);
    let c = Point3::new(1, 0, 0);
    let d = Point3::new(1, 1, 1);

    assert_eq!(SideOfPlane::Right, side_of_plane(&a, &b, &c, &d));
    assert_eq!(SideOfPlane::Right, side_of_plane(&b, &a, &d, &c));
    assert_eq!(SideOfPlane::Right, side_of_plane(&d, &c, &b, &a));
    assert_eq!(SideOfPlane::Right, side_of_plane(&d, &b, &a, &c));
}

#[test]
fn testing_center_should_be_on_the_same_side() {
    let a = Point3::new(0, 0, 0);
    let b = Point3::new(0, 4, 0);
    let c = Point3::new(4, 0, 0);
    let d = Point3::new(4, 4, 4);

    let center = Point3::new(
        (a.x + b.x + c.x + d.x) / 4,
        (a.y + b.y + c.y + d.y) / 4,
        (a.z + b.z + c.z + d.z) / 4,
    );

    assert_eq!(SideOfPlane::Right, side_of_plane(&a, &b, &c, &d));

    assert_eq!(SideOfPlane::Right, side_of_plane(&a, &b, &c, &center));
    assert_eq!(SideOfPlane::Right, side_of_plane(&b, &a, &d, &center));
    assert_eq!(SideOfPlane::Right, side_of_plane(&d, &c, &b, &center));
    assert_eq!(SideOfPlane::Right, side_of_plane(&d, &b, &a, &center));
}

#[test]
fn testing_center_should_be_on_the_same_side_2() {
    let a = Point3::new(0, 0, 0);
    let b = Point3::new(0, 0, 4);
    let c = Point3::new(0, 4, 0);
    let d = Point3::new(4, 0, 0);

    let center = Point3::new(
        (a.x + b.x + c.x + d.x) / 4,
        (a.y + b.y + c.y + d.y) / 4,
        (a.z + b.z + c.z + d.z) / 4,
    );

    assert_eq!(SideOfPlane::Right, side_of_plane(&a, &b, &c, &d));

    assert_eq!(SideOfPlane::Right, side_of_plane(&a, &b, &c, &center));
    assert_eq!(SideOfPlane::Right, side_of_plane(&b, &a, &d, &center));
    assert_eq!(SideOfPlane::Right, side_of_plane(&d, &c, &b, &center));
    assert_eq!(SideOfPlane::Right, side_of_plane(&d, &b, &a, &center));
}

#[test]
fn testing_side_of_line() {
    let a = Point2::new(0, 0);
    let b = Point2::new(1, 0);

    assert_eq!(SideOfLine::Left, side_of_line(&a, &b, &Point2::new(1, 1)));
    assert_eq!(SideOfLine::Right, side_of_line(&a, &b, &Point2::new(1, -1)));
    assert_eq!(SideOfLine::OnLine, side_of_line(&a, &b, &Point2::new(2, 0)));
}

#[test]
fn testing_side_of_line_swap_flips() {
    let a = Point2::new(3, -2);
    let b = Point2::new(7, 5);
    let c = Point2::new(-1, 4);

    assert_eq!(SideOfLine::Left, side_of_line(&a, &b, &c));
    assert_eq!(SideOfLine::Right, side_of_line(&b, &a, &c));
}

#[test]
fn testing_plane_permutation_flips() {
    let a = Point3::new(0, 0, 0);
    let b = Point3::new(0, 1, 0);
    let c = Point3::new(1, 0, 0);
    let d = Point3::new(1, 1, 1);

    assert_eq!(SideOfPlane::Right, side_of_plane(&a, &b, &c, &d));
    assert_eq!(SideOfPlane::Left, side_of_plane(&b, &a, &c, &d));
    assert_eq!(SideOfPlane::Left, side_of_plane(&a, &c, &b, &d));
    assert_eq!(SideOfPlane::Left, side_of_plane(&c, &b, &a, &d));
    assert_eq!(SideOfPlane::Right, side_of_plane(&b, &c, &a, &d));
    assert_eq!(SideOfPlane::Right, side_of_plane(&c, &a, &b, &d));
}

#[test]
fn testing_sort_3() {
    let r = sort_3(N3Index(5), N3Index(2), N3Index(9));
    assert_eq!((N3Index(2), N3Index(5), N3Index(9)), r);
    let r = sort_3(N3Index(9), N3Index(5), N3Index(2));
    assert_eq!((N3Index(2), N3Index(5), N3Index(9)), r);
    let r = sort_3(N3Index(2), N3Index(9), N3Index(5));
    assert_eq!((N3Index(2), N3Index(5), N3Index(9)), r);
}
