//! Textures: either a constant colour or a reference into the asset table.

use vstd::prelude::*;
use crate::assets::{Assets, ValidationError};
use crate::colour::{Colour, black};
use crate::scalar::Scalar;
use crate::vector::Vector;

verus! {

#[derive(Clone, Copy, PartialEq, Eq, Structural, Debug)]
pub enum Texture {
    Constant { colour: Colour },
    Image { id: u64 },
}

impl Texture {
    /// The colour this texture evaluates to under the given asset table.
    pub open spec fn value_spec(self, assets: Assets) -> Colour {
        match self {
            Texture::Constant { colour } => colour,
            Texture::Image { id } => if assets.has_id(id) {
                assets.colour_of(id)
            } else {
                black()
            },
        }
    }

    /// Every reference this texture makes resolves in the asset table.
    pub open spec fn refs_ok(self, assets: Assets) -> bool {
        match self {
            Texture::Constant { .. } => true,
            Texture::Image { id } => assets.has_id(id),
        }
    }

    pub fn value(&self, texture_coords: (Scalar, Scalar), point: &Vector, assets: &Assets) -> (r:
        Colour)
        ensures
            r == self.value_spec(*assets),
    {
        match self {
            Texture::Constant { colour } => *colour,
            Texture::Image { id } => assets.resolve(*id),
        }
    }

    pub fn validate(&self, assets: &Assets) -> (r: Result<(), ValidationError>)
        ensures
            r is Ok <==> self.refs_ok(*assets),
            r matches Err(e) ==> (self matches Texture::Image { id } && e.missing_id == *id
                && !assets.has_id(*id)),
    {
        match self {
            Texture::Constant { .. } => Ok(()),
            Texture::Image { id } => {
                if assets.contains(*id) {
                    Ok(())
                } else {
                    Err(ValidationError { missing_id: *id })
                }
            },
        }
    }
}

} // verus!
