use vstd::prelude::*;
use crate::color::Color;

verus! {

/// A diffuse material: it scatters every ray it is hit by and attenuates it by `albedo`.
#[derive(Copy, Clone, PartialEq, Eq, Debug, Structural)]
pub struct Lambertian {
    albedo: Color,
}

impl Lambertian {
    pub fn new(albedo: Color) -> (m: Lambertian)
        ensures
            m.albedo() == albedo,
    {
        Lambertian { albedo }
    }

    pub closed spec fn albedo(&self) -> Color {
        self.albedo
    }

    /// The attenuation applied to every ray this material scatters.
    pub fn attenuation(&self) -> (c: Color)
        ensures
            c == self.albedo(),
    {
        self.albedo
    }
}

} // verus!
