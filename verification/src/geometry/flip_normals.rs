//! Flipping the reported surface normal of a wrapped geometry.

use vstd::prelude::*;
use crate::geometry::Geometry;

verus! {

#[derive(Debug)]
pub struct FlipNormals {
    pub geometry: Geometry,
}

} // verus!
