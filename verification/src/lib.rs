//! Marching cubes over a chunked density field, in exact arithmetic.
//!
//! A density is a whole number of fixed-point units: above zero inside the
//! solid, zero or below outside. A `Chunk` samples a density on a grid of
//! 33 x 33 x 33 points and meshes its 32 x 32 x 32 cells: for each cell, the
//! triangulation table gives the triangles of the cell's configuration, and
//! linear interpolation along the crossed edges gives their corners.
//!
//! Nothing is rounded. A corner of a triangle is a lattice point plus an offset
//! with whole numerators over one denominator, and a normal is a direction in
//! whole numbers, not a unit vector. A host that draws the mesh turns both into
//! floating-point numbers.
pub mod append_vertices;
pub mod chunk;
pub mod chunks_holder;
pub mod components;
pub mod edge_midpoints;
pub mod mesh;
pub mod orientation;
pub mod plane;
pub mod pos;
pub mod redraw_chunk;
pub mod triangulation_table;
pub mod voxel;
