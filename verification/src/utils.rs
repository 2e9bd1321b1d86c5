//! Small helpers for building common widget content.

use vstd::prelude::*;

use crate::vector_image::{Primitive, Vector2};

verus! {

/// The two strokes of a diagonal cross filling a square of the given side,
/// drawn with the given stroke width; lengths in tenths of a pixel.
pub open spec fn spec_cross_primitives(size: u32, thickness: u32) -> Seq<Primitive> {
    seq![
        (Primitive::Line {
            begin: Vector2 { x: 0, y: 0 },
            end: Vector2 { x: size, y: size },
            thickness,
        }),
        (Primitive::Line {
            begin: Vector2 { x: size, y: 0 },
            end: Vector2 { x: 0, y: size },
            thickness,
        }),
    ]
}

/// Builds the strokes of a diagonal cross, the usual content of a "close" or
/// "clear" button.
pub fn make_cross_primitive(size: u32, thickness: u32) -> (p: Vec<Primitive>)
    ensures
        p@ == spec_cross_primitives(size, thickness),
{
    let mut p: Vec<Primitive> = Vec::new();
    p.push(Primitive::Line { begin: Vector2::new(0, 0), end: Vector2::new(size, size), thickness });
    p.push(Primitive::Line { begin: Vector2::new(size, 0), end: Vector2::new(0, size), thickness });
    proof {
        assert(p@ =~= spec_cross_primitives(size, thickness));
    }
    p
}

} // verus!
