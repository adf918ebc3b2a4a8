use vstd::prelude::*;

verus! {

/// The direction a dielectric surface sends an incoming ray.
#[derive(Clone, Copy, Debug, PartialEq, Eq, Structural)]
pub enum Bounce {
    Reflect,
    Refract,
}

/// The bounce a dielectric chooses: reflection when refraction is impossible
/// (total internal reflection) or when the reflectance beat the random draw.
pub open spec fn chosen_bounce(cannot_refract: bool, reflectance_beats_draw: bool) -> Bounce {
    if cannot_refract || reflectance_beats_draw {
        Bounce::Reflect
    } else {
        Bounce::Refract
    }
}

/// Decides between reflection and refraction at a dielectric boundary.
///
/// `cannot_refract` holds when `ratio * sin(theta) > 1`; `reflectance_beats_draw`
/// holds when Schlick's reflectance exceeded a uniform draw in `[0, 1)`.
pub fn choose_bounce(cannot_refract: bool, reflectance_beats_draw: bool) -> (r: Bounce)
    ensures
        r == chosen_bounce(cannot_refract, reflectance_beats_draw),
{
    if cannot_refract || reflectance_beats_draw {
        Bounce::Reflect
    } else {
        Bounce::Refract
    }
}

/// Total internal reflection is deterministic: when refraction is impossible
/// the dielectric reflects, whatever the random draw gave.
pub proof fn total_internal_reflection_ignores_draw(draw_a: bool, draw_b: bool)
    ensures
        chosen_bounce(true, draw_a) == Bounce::Reflect,
        chosen_bounce(true, draw_a) == chosen_bounce(true, draw_b),
{
}

} // verus!
