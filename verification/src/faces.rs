//! Which face of a box a hit point lies on, and which plane its texture
//! coordinates are taken in.
use vstd::prelude::*;

verus! {

/// A face of an axis-aligned box, named by the direction of its outward
/// normal.
#[derive(Debug, Clone, Copy, PartialEq, Eq, Structural)]
pub enum Face {
    NegX,
    PosX,
    NegY,
    PosY,
    NegZ,
    PosZ,
}

/// A coordinate axis.
#[derive(Debug, Clone, Copy, PartialEq, Eq, Structural)]
pub enum Axis {
    X,
    Y,
    Z,
}

/// For each face, whether the hit point lies on its plane (within the
/// caller's tolerance).
#[derive(Debug, Clone, Copy, PartialEq, Eq, Structural)]
pub struct Contacts {
    pub min_x: bool,
    pub max_x: bool,
    pub min_y: bool,
    pub max_y: bool,
    pub min_z: bool,
    pub max_z: bool,
}

/// Whether `c` reports the hit point on face `f`.
pub open spec fn touches(c: Contacts, f: Face) -> bool {
    match f {
        Face::NegX => c.min_x,
        Face::PosX => c.max_x,
        Face::NegY => c.min_y,
        Face::PosY => c.max_y,
        Face::NegZ => c.min_z,
        Face::PosZ => c.max_z,
    }
}

/// The order in which faces are tried: the lower bound before the upper one,
/// x before y before z.
pub open spec fn precedence(f: Face) -> nat {
    match f {
        Face::NegX => 0,
        Face::PosX => 1,
        Face::NegY => 2,
        Face::PosY => 3,
        Face::NegZ => 4,
        Face::PosZ => 5,
    }
}

/// The axis a face is perpendicular to.
pub open spec fn axis_of(f: Face) -> Axis {
    match f {
        Face::NegX | Face::PosX => Axis::X,
        Face::NegY | Face::PosY => Axis::Y,
        Face::NegZ | Face::PosZ => Axis::Z,
    }
}

/// The face that a hit point is attributed to: the first face, in
/// [`precedence`] order, whose plane it lies on; `None` when it lies on none
/// of them (the caller then uses a zero normal).
pub fn contact_face(c: Contacts) -> (r: Option<Face>)
    ensures
        r is None <==> (forall|f: Face| !touches(c, f)),
        r matches Some(f) ==> touches(c, f) && (forall|g: Face|
            precedence(g) < precedence(f) ==> !touches(c, g)),
{
    let r = if c.min_x {
        Some(Face::NegX)
    } else if c.max_x {
        Some(Face::PosX)
    } else if c.min_y {
        Some(Face::NegY)
    } else if c.max_y {
        Some(Face::PosY)
    } else if c.min_z {
        Some(Face::NegZ)
    } else if c.max_z {
        Some(Face::PosZ)
    } else {
        None
    };
    proof {
        if let Some(f) = r {
            assert(touches(c, f));
            assert forall|g: Face| precedence(g) < precedence(f) implies !touches(c, g) by {
                match g {
                    Face::NegX => {},
                    Face::PosX => {},
                    Face::NegY => {},
                    Face::PosY => {},
                    Face::NegZ => {},
                    Face::PosZ => {},
                }
            }
        }
        if r is None {
            assert forall|f: Face| !touches(c, f) by {
                match f {
                    Face::NegX => {},
                    Face::PosX => {},
                    Face::NegY => {},
                    Face::PosY => {},
                    Face::NegZ => {},
                    Face::PosZ => {},
                }
            }
        }
    }
    r
}

/// The plane in which texture coordinates are taken for a hit on `face`:
/// the face's own plane, named by its axis; a hit attributed to no face is
/// mapped like one on a z face.
pub fn uv_axis(face: Option<Face>) -> (r: Axis)
    ensures
        r == (match face {
            Some(f) => axis_of(f),
            None => Axis::Z,
        }),
{
    match face {
        Some(Face::NegX) | Some(Face::PosX) => Axis::X,
        Some(Face::NegY) | Some(Face::PosY) => Axis::Y,
        _ => Axis::Z,
    }
}

} // verus!
