//! Decisions taken while shading a ray: how deep secondary rays go, and
//! where a surface takes its colour from.
use vstd::prelude::*;
use crate::rank::{Rank, below, is_below};

verus! {

/// The deepest level at which a ray is still shaded; a ray cast deeper than
/// this sees only the sky.
pub const MAX_SHADED_DEPTH: u32 = 1;

/// The depth given to the reflected and refracted rays of a ray cast at
/// `depth`, or `None` when a ray at that depth is not shaded at all.
pub open spec fn secondary_depth(depth: u32) -> Option<u32> {
    if depth <= MAX_SHADED_DEPTH { Some((depth + 1) as u32) } else { None }
}

/// Decides whether a ray cast at `depth` is shaded. `None`: the ray returns
/// the sky colour at once. `Some(d)`: the ray is shaded, and the reflected or
/// refracted rays it spawns are cast at depth `d`.
pub fn next_depth(depth: u32) -> (r: Option<u32>)
    ensures
        r == secondary_depth(depth),
        r matches Some(d) ==> d == depth + 1,
        r is None <==> depth > MAX_SHADED_DEPTH,
{
    if depth > MAX_SHADED_DEPTH {
        None
    } else {
        Some(depth + 1)
    }
}

/// How many levels of reflection or refraction follow a ray cast at `depth`
/// before every further ray returns the sky.
pub open spec fn bounce_levels(depth: u32) -> nat
    decreases (MAX_SHADED_DEPTH + 1 - depth) as int
{
    match secondary_depth(depth) {
        None => 0,
        Some(d) => 1 + bounce_levels(d),
    }
}

/// A primary ray (cast at depth 0) is followed by exactly two levels of
/// reflected or refracted rays, and no ray by more than two.
pub proof fn lemma_at_most_two_bounce_levels(depth: u32)
    ensures
        bounce_levels(0) == 2,
        bounce_levels(depth) <= 2,
{
    assert(bounce_levels(2) == 0);
    assert(bounce_levels(1) == 1);
    assert(bounce_levels(0) == 2);
}

/// Where the colour of a hit surface comes from.
#[derive(Debug, Clone, Copy, PartialEq, Eq, Structural)]
pub enum TextureSlot {
    /// The texture for the top and bottom faces of a block with per-face textures.
    TopBottom,
    /// The texture for the side faces of a block with per-face textures.
    Side,
    /// The single texture of the surface's material.
    Material,
    /// No texture: the material's plain diffuse colour.
    Diffuse,
}

/// Chooses the colour source of a hit. A block with per-face textures (its
/// top/bottom texture is set) uses that texture on a horizontal face (one
/// whose normal points mostly up or down) and its side texture otherwise;
/// any other surface uses its material's texture where it has one, else its
/// diffuse colour.
pub fn texture_slot(
    top_bottom: &Option<String>,
    side: &Option<String>,
    material: &Option<String>,
    horizontal_face: bool,
) -> (r: TextureSlot)
    requires
        top_bottom is Some && !horizontal_face ==> side is Some,
    ensures
        r == (if top_bottom is Some {
            if horizontal_face { TextureSlot::TopBottom } else { TextureSlot::Side }
        } else if material is Some {
            TextureSlot::Material
        } else {
            TextureSlot::Diffuse
        }),
{
    if top_bottom.is_some() {
        if horizontal_face {
            TextureSlot::TopBottom
        } else {
            TextureSlot::Side
        }
    } else if material.is_some() {
        TextureSlot::Material
    } else {
        TextureSlot::Diffuse
    }
}

/// A band of the sky gradient, from the horizon up.
#[derive(Debug, Clone, Copy, PartialEq, Eq, Structural)]
pub enum SkyBand {
    /// Blends the horizon colour into the lower sky colour.
    Horizon,
    /// Blends the lower sky colour into the upper one.
    Middle,
    /// Blends the upper sky colour into the zenith colour.
    Upper,
    /// The plain zenith colour.
    Zenith,
}

/// The band of the sky gradient that height `t` falls in, where the bands
/// end at the heights `ends.0 <= ends.1 <= ends.2`: the first band whose end
/// lies above `t`; a height that is not below any end (NaN among them) is in
/// the zenith band.
pub fn sky_band(t: Rank, ends: (Rank, Rank, Rank)) -> (r: SkyBand)
    ensures
        r == (if below(t, ends.0) {
            SkyBand::Horizon
        } else if below(t, ends.1) {
            SkyBand::Middle
        } else if below(t, ends.2) {
            SkyBand::Upper
        } else {
            SkyBand::Zenith
        }),
{
    if is_below(t, ends.0) {
        SkyBand::Horizon
    } else if is_below(t, ends.1) {
        SkyBand::Middle
    } else if is_below(t, ends.2) {
        SkyBand::Upper
    } else {
        SkyBand::Zenith
    }
}

} // verus!
