//! Exact geometric predicates and the face-adjacency builder for a
//! tetrahedral mesh kernel, together with the fixed-format mesh exporter.
//!
//! The predicates classify a point against a line or plane by the exact sign
//! of an integer determinant; the adjacency builder stitches an unordered
//! collection of tetrahedra into a navigable mesh graph by matching shared
//! triangular faces.

pub mod abaqus_write;
pub mod circumcircle_side;
pub mod circumsphere_side;
pub mod indexes;
pub mod point;
pub mod side_of_line;
pub mod side_of_plane;
pub mod sort3;
pub mod tetrahedron;
pub mod triangulation;
pub mod triangulation3_neighborhood;

pub use abaqus_write::write_to_abaqus_format;
pub use circumcircle_side::CircumcircleSide;
pub use circumcircle_side::circumcircle_side;
pub use circumsphere_side::CircumsphereSide;
pub use circumsphere_side::circumsphere_side;
pub use indexes::N2Index;
pub use indexes::N3Index;
pub use indexes::T4Index;
pub use point::MAX_ORIENT_COORD;
pub use point::Point2;
pub use point::Point3;
pub use side_of_line::SideOfLine;
pub use side_of_line::side_of_line;
pub use side_of_plane::SideOfPlane;
pub use side_of_plane::side_of_plane;
pub use sort3::sort_3;
pub use tetrahedron::Tetrahedron;
pub use triangulation::Triangle;
pub use triangulation::Triangulation;
pub use triangulation3_neighborhood::NeighborhoodError;
pub use triangulation3_neighborhood::Triangulation3Neighborhood;
