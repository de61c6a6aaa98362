use tetmesh::{N2Index, Point2, Triangle, Triangulation, write_to_abaqus_format};

#[test]
fn testing_bufwriter_and_string() {
    let nodes = vec![
        Point2::new(0, 0),
        Point2::new(1, 0),
        Point2::new(1, 1),
        Point2::new(0, 1),
    ];
    let eles = vec![
        Triangle::new(&nodes, N2Index(0), N2Index(1), N2Index(2)),
        Triangle::new(&nodes, N2Index(0), N2Index(2), N2Index(3)),
    ];
    let triangulation = Triangulation::new_from_prebuilt_triangulation(nodes, eles);

    let s = String::from_utf8(write_to_abaqus_format(&triangulation)).unwrap();

    let expected_file = "*Part, name=PART-1
*Node
1,	0,	0
2,	1,	0
3,	1,	1
4,	0,	1
*Element, type=CPE3
1,	1,	3,	2
2,	1,	4,	3
*Elset, elset=M_1
1,2
*Solid Section, elset=M_1, material=M_1
1.,
*End Part
**
**
** ASSEMBLY
**
*Assembly, name=Assembly
**
*Instance, name=PART-1-1, part=PART-1
*End Instance
**
*End Assembly
";

    assert_eq!(expected_file, s);
}

#[test]
fn testing_export_is_deterministic() {
    let nodes = vec![
        Point2::new(0, 0),
        Point2::new(5, 0),
        Point2::new(5, 5),
        Point2::new(-3, 4),
    ];
    let eles = vec![
        Triangle::new(&nodes, N2Index(0), N2Index(1), N2Index(2)),
        Triangle::new(&nodes, N2Index(0), N2Index(2), N2Index(3)),
    ];
    let triangulation = Triangulation::new_from_prebuilt_triangulation(nodes, eles);

    let first = write_to_abaqus_format(&triangulation);
    let second = write_to_abaqus_format(&triangulation);
    assert_eq!(first, second);
}

#[test]
fn testing_elset_wraps_every_ten_entries() {
    let nodes = vec![Point2::new(0, 0), Point2::new(1, 0), Point2::new(1, 1)];
    let mut eles = Vec::new();
    for _ in 0..12 {
        eles.push(Triangle::new(&nodes, N2Index(0), N2Index(1), N2Index(2)));
    }
    let triangulation = Triangulation::new_from_prebuilt_triangulation(nodes, eles);

    let s = String::from_utf8(write_to_abaqus_format(&triangulation)).unwrap();
    assert!(s.contains("*Elset, elset=M_1\n1,2,3,4,5,6,7,8,9,10,\n11,12\n"));
}

#[test]
fn testing_negative_coordinates_are_exported() {
    let nodes = vec![Point2::new(-7, -1), Point2::new(3, 0), Point2::new(0, 2)];
    let eles = vec![Triangle::new(&nodes, N2Index(0), N2Index(1), N2Index(2))];
    let triangulation = Triangulation::new_from_prebuilt_triangulation(nodes, eles);

    let s = String::from_utf8(write_to_abaqus_format(&triangulation)).unwrap();
    assert!(s.contains("1,\t-7,\t-1\n"));
}
