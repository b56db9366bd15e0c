//! Verified core of an Eulerian fluid simulator on a fixed-size 3D grid.
//!
//! This crate holds the grid primitives the simulator is built from:
//! coordinate triples and offsets, the lexicographic cell iterator, flat
//! indexing, the 3D array containers, per-face flow-blockage flags, and the
//! double-buffering swap-chains that let each simulation kernel read a stable
//! snapshot while writing the next one.

pub mod array;
pub mod coords;
pub mod flow;
pub mod indexing;
pub mod iterator;
pub mod sized_array;
pub mod stencil;
pub mod swapchain;

pub use array::Array3D;
pub use coords::Coords;
pub use coords::CoordsDiff;
pub use flow::FlowFlags;
pub use indexing::index;
pub use indexing::Fillable;
pub use indexing::FlatIndex;
pub use indexing::Sized3D;
pub use indexing::Slice3D;
pub use indexing::Slice3DMut;
pub use iterator::iterate;
pub use iterator::iterate_range;
pub use sized_array::SizedArray3D;
pub use stencil::cube_corner;
pub use stencil::open_neighbors;
pub use swapchain::Swapable;
pub use swapchain::Swapchain;
pub use swapchain::SwapchainPack;
