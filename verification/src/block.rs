//! Block materials.

use vstd::prelude::*;

verus! {

/// The material of one voxel. `AIR` is the empty cell: it never produces
/// geometry and has no place in a texture atlas.
#[allow(non_camel_case_types)]
#[derive(Debug, Clone, Copy, PartialEq, Eq, Structural, Hash, PartialOrd, Ord)]
pub enum BlockState {
    AIR,
    TEST,
    PANEL,
}

} // verus!
