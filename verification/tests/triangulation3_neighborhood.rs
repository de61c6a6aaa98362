use tetmesh::{N3Index, Point3, T4Index, Tetrahedron, Triangulation3Neighborhood};

#[test]
fn testing_neighborhood() {
    let points = vec![
        Point3::new(0, 0, 0),
        Point3::new(100, 0, 0),
        Point3::new(0, 100, 0),
        Point3::new(0, 0, 100),
        Point3::new(100, 100, 0),
    ];

    let t0 = Tetrahedron::new(&points, N3Index(0), N3Index(1), N3Index(2), N3Index(3));
    let t1 = Tetrahedron::new(&points, N3Index(1), N3Index(2), N3Index(3), N3Index(4));

    let mut neighborhood = Triangulation3Neighborhood::new();

    neighborhood.register_tetrahedron(&t0, T4Index(0)).unwrap();
    neighborhood.register_tetrahedron(&t1, T4Index(1)).unwrap();

    assert_eq!(Option::None, neighborhood.get_neighbor(N3Index(0), N3Index(1), N3Index(2), T4Index(0)));
    assert_eq!(Some(T4Index(1)), neighborhood.get_neighbor(N3Index(1), N3Index(2), N3Index(3), T4Index(0)));
    assert_eq!(Option::None, neighborhood.get_neighbor(N3Index(2), N3Index(3), N3Index(0), T4Index(0)));
    assert_eq!(Option::None, neighborhood.get_neighbor(N3Index(3), N3Index(0), N3Index(1), T4Index(0)));

    assert_eq!(Some(T4Index(1)), neighborhood.get_neighbor(N3Index(3), N3Index(2), N3Index(1), T4Index(0)));

    assert_eq!(Some(T4Index(0)), neighborhood.get_neighbor(N3Index(1), N3Index(2), N3Index(3), T4Index(1)));
    assert_eq!(None, neighborhood.get_neighbor(N3Index(2), N3Index(3), N3Index(4), T4Index(1)));
    assert_eq!(None, neighborhood.get_neighbor(N3Index(3), N3Index(4), N3Index(1), T4Index(1)));
    assert_eq!(None, neighborhood.get_neighbor(N3Index(4), N3Index(1), N3Index(2), T4Index(1)));
}

fn cube_points() -> Vec<Point3> {
    vec![
        Point3::new(0, 0, 0),
        Point3::new(100, 0, 0),
        Point3::new(100, 100, 0),
        Point3::new(0, 100, 0),
        Point3::new(0, 0, 100),
        Point3::new(100, 0, 100),
        Point3::new(100, 100, 100),
        Point3::new(0, 100, 100),
    ]
}

#[test]
fn testing_neighborhood_with_initiation() {
    let nodes = cube_points();
    let mut eles: Vec<Tetrahedron> = vec![
        Tetrahedron::new(&nodes, N3Index(0), N3Index(3), N3Index(4), N3Index(1)),
        Tetrahedron::new(&nodes, N3Index(1), N3Index(2), N3Index(3), N3Index(6)),
        Tetrahedron::new(&nodes, N3Index(1), N3Index(4), N3Index(5), N3Index(6)),
        Tetrahedron::new(&nodes, N3Index(3), N3Index(4), N3Index(6), N3Index(7)),
        Tetrahedron::new(&nodes, N3Index(1), N3Index(3), N3Index(4), N3Index(6)),
    ];

    Triangulation3Neighborhood::teach_triangles_of_neighborhood(&mut eles).unwrap();

    assert_eq!(None, eles[0].get_neighbor_for_indices(N3Index(0), N3Index(3), N3Index(4)));
    assert_eq!(Some(T4Index(4)), eles[0].get_neighbor_for_indices(N3Index(3), N3Index(4), N3Index(1)));
    assert_eq!(None, eles[0].get_neighbor_for_indices(N3Index(4), N3Index(1), N3Index(0)));
    assert_eq!(None, eles[0].get_neighbor_for_indices(N3Index(1), N3Index(0), N3Index(3)));

    assert_eq!(None, eles[1].get_neighbor_for_indices(N3Index(1), N3Index(2), N3Index(3)));
    assert_eq!(None, eles[1].get_neighbor_for_indices(N3Index(2), N3Index(3), N3Index(6)));
    assert_eq!(Some(T4Index(4)), eles[1].get_neighbor_for_indices(N3Index(3), N3Index(6), N3Index(1)));
    assert_eq!(None, eles[1].get_neighbor_for_indices(N3Index(6), N3Index(1), N3Index(2)));

    assert_eq!(None, eles[2].get_neighbor_for_indices(N3Index(1), N3Index(4), N3Index(5)));
    assert_eq!(None, eles[2].get_neighbor_for_indices(N3Index(4), N3Index(5), N3Index(6)));
    assert_eq!(None, eles[2].get_neighbor_for_indices(N3Index(5), N3Index(6), N3Index(1)));
    assert_eq!(Some(T4Index(4)), eles[2].get_neighbor_for_indices(N3Index(6), N3Index(1), N3Index(4)));

    assert_eq!(Some(T4Index(4)), eles[3].get_neighbor_for_indices(N3Index(3), N3Index(4), N3Index(6)));
    assert_eq!(None, eles[3].get_neighbor_for_indices(N3Index(4), N3Index(6), N3Index(7)));
    assert_eq!(None, eles[3].get_neighbor_for_indices(N3Index(6), N3Index(7), N3Index(3)));
    assert_eq!(None, eles[3].get_neighbor_for_indices(N3Index(7), N3Index(3), N3Index(4)));

    assert_eq!(Some(T4Index(0)), eles[4].get_neighbor_for_indices(N3Index(1), N3Index(3), N3Index(4)));
    assert_eq!(Some(T4Index(3)), eles[4].get_neighbor_for_indices(N3Index(3), N3Index(4), N3Index(6)));
    assert_eq!(Some(T4Index(2)), eles[4].get_neighbor_for_indices(N3Index(4), N3Index(6), N3Index(1)));
    assert_eq!(Some(T4Index(1)), eles[4].get_neighbor_for_indices(N3Index(6), N3Index(1), N3Index(3)));
}

#[test]
fn testing_two_tetrahedra_stitching() {
    let points = vec![
        Point3::new(0, 0, 0),
        Point3::new(100, 0, 0),
        Point3::new(0, 100, 0),
        Point3::new(0, 0, 100),
        Point3::new(100, 100, 0),
    ];

    let t0 = Tetrahedron::new(&points, N3Index(0), N3Index(1), N3Index(2), N3Index(3));
    let t1 = Tetrahedron::new(&points, N3Index(1), N3Index(2), N3Index(3), N3Index(4));

    let mut eles = vec![t0, t1];
    Triangulation3Neighborhood::teach_triangles_of_neighborhood(&mut eles).unwrap();

    assert_eq!(Some(T4Index(1)), eles[0].get_neighbor_for_indices(N3Index(1), N3Index(2), N3Index(3)));
    assert_eq!(Some(T4Index(1)), eles[0].get_neighbor_for_indices(N3Index(3), N3Index(1), N3Index(2)));
    assert_eq!(None, eles[0].get_neighbor_for_indices(N3Index(0), N3Index(1), N3Index(2)));
    assert_eq!(None, eles[0].get_neighbor_for_indices(N3Index(0), N3Index(1), N3Index(3)));
    assert_eq!(None, eles[0].get_neighbor_for_indices(N3Index(0), N3Index(2), N3Index(3)));

    assert_eq!(Some(T4Index(0)), eles[1].get_neighbor_for_indices(N3Index(1), N3Index(2), N3Index(3)));
    assert_eq!(Some(T4Index(0)), eles[1].get_neighbor_for_indices(N3Index(2), N3Index(3), N3Index(1)));
    assert_eq!(None, eles[1].get_neighbor_for_indices(N3Index(1), N3Index(2), N3Index(4)));
    assert_eq!(None, eles[1].get_neighbor_for_indices(N3Index(1), N3Index(3), N3Index(4)));
    assert_eq!(None, eles[1].get_neighbor_for_indices(N3Index(2), N3Index(3), N3Index(4)));
}

#[test]
fn testing_third_owner_is_fatal() {
    let points = vec![
        Point3::new(0, 0, 0),
        Point3::new(10, 0, 0),
        Point3::new(0, 10, 0),
        Point3::new(0, 0, 10),
        Point3::new(10, 10, 10),
        Point3::new(20, 20, 20),
    ];

    let t0 = Tetrahedron::new(&points, N3Index(0), N3Index(1), N3Index(2), N3Index(3));
    let t1 = Tetrahedron::new(&points, N3Index(1), N3Index(2), N3Index(3), N3Index(4));
    let t2 = Tetrahedron::new(&points, N3Index(1), N3Index(2), N3Index(3), N3Index(5));

    let mut neighborhood = Triangulation3Neighborhood::new();
    neighborhood.register_tetrahedron(&t0, T4Index(0)).unwrap();
    neighborhood.register_tetrahedron(&t1, T4Index(1)).unwrap();
    assert!(neighborhood.register_tetrahedron(&t2, T4Index(2)).is_err());

    let mut eles = vec![t0, t1, t2];
    assert!(Triangulation3Neighborhood::teach_triangles_of_neighborhood(&mut eles).is_err());
    assert_eq!(None, eles[0].get_neighbor_for_indices(N3Index(1), N3Index(2), N3Index(3)));
    assert_eq!(None, eles[1].get_neighbor_for_indices(N3Index(1), N3Index(2), N3Index(3)));
    assert_eq!(None, eles[2].get_neighbor_for_indices(N3Index(1), N3Index(2), N3Index(3)));
}

#[test]
fn testing_registration_order_does_not_matter() {
    let points = vec![
        Point3::new(0, 0, 0),
        Point3::new(100, 0, 0),
        Point3::new(0, 100, 0),
        Point3::new(0, 0, 100),
        Point3::new(100, 100, 0),
    ];

    let t0 = Tetrahedron::new(&points, N3Index(0), N3Index(1), N3Index(2), N3Index(3));
    let t1 = Tetrahedron::new(&points, N3Index(1), N3Index(2), N3Index(3), N3Index(4));

    let mut forward = Triangulation3Neighborhood::new();
    forward.register_tetrahedron(&t0, T4Index(0)).unwrap();
    forward.register_tetrahedron(&t1, T4Index(1)).unwrap();

    let mut backward = Triangulation3Neighborhood::new();
    backward.register_tetrahedron(&t1, T4Index(1)).unwrap();
    backward.register_tetrahedron(&t0, T4Index(0)).unwrap();

    for (p1, p2, p3) in [
        (N3Index(1), N3Index(2), N3Index(3)),
        (N3Index(0), N3Index(1), N3Index(2)),
        (N3Index(2), N3Index(3), N3Index(4)),
    ] {
        assert_eq!(
            forward.get_neighbor(p1, p2, p3, T4Index(0)),
            backward.get_neighbor(p1, p2, p3, T4Index(0))
        );
        assert_eq!(
            forward.get_neighbor(p1, p2, p3, T4Index(1)),
            backward.get_neighbor(p1, p2, p3, T4Index(1))
        );
    }
}
