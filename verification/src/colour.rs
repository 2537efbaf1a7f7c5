//! Colours as red/green/blue intensities in fixed point.

use vstd::prelude::*;
use crate::scalar::{Scalar, SCALE};

verus! {

#[derive(Clone, Copy, PartialEq, Eq, Structural, Debug)]
pub struct Colour {
    pub r: Scalar,
    pub g: Scalar,
    pub b: Scalar,
}

/// Full intensity on every channel.
pub open spec fn white() -> Colour {
    Colour {
        r: Scalar { raw: SCALE },
        g: Scalar { raw: SCALE },
        b: Scalar { raw: SCALE },
    }
}

/// No intensity on any channel.
pub open spec fn black() -> Colour {
    Colour { r: Scalar { raw: 0 }, g: Scalar { raw: 0 }, b: Scalar { raw: 0 } }
}

impl Colour {
    pub fn new(r: Scalar, g: Scalar, b: Scalar) -> (c: Colour)
        ensures
            c == (Colour { r, g, b }),
    {
        Colour { r, g, b }
    }

    pub fn white_c() -> (c: Colour)
        ensures
            c == white(),
    {
        Colour { r: Scalar { raw: SCALE }, g: Scalar { raw: SCALE }, b: Scalar { raw: SCALE } }
    }

    pub fn black_c() -> (c: Colour)
        ensures
            c == black(),
    {
        Colour { r: Scalar { raw: 0 }, g: Scalar { raw: 0 }, b: Scalar { raw: 0 } }
    }
}

} // verus!
