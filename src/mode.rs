use vstd::prelude::*;

verus! {

/// Which geometry remapping the vertex stage applies before the matrix chain.
#[derive(Clone, Copy, Debug, PartialEq, Eq, Structural)]
pub enum RenderType {
    /// Positions pass through unchanged (the planet body).
    Standard,
    /// Positions are rebuilt as a flat annulus around the planet.
    Ring,
    /// Positions become a small offset around an orbiting centre.
    Moon,
}

/// The render type that a uniform code selects; unknown codes leave positions as they are.
pub open spec fn render_type_of(code: i32) -> RenderType {
    if code == 1 {
        RenderType::Ring
    } else if code == 2 {
        RenderType::Moon
    } else {
        RenderType::Standard
    }
}

impl RenderType {
    /// Reads the `render_type` code of the uniforms.
    pub fn from_code(code: i32) -> (r: RenderType)
        ensures
            r == render_type_of(code),
    {
        match code {
            1 => RenderType::Ring,
            2 => RenderType::Moon,
            _ => RenderType::Standard,
        }
    }
}

/// Which procedural colour program the fragment stage runs.
#[derive(Clone, Copy, Debug, PartialEq, Eq, Structural)]
pub enum PlanetType {
    Rocky,
    GasGiant,
    Rainbow,
    Glitter,
    Heart,
}

/// The colour program that a uniform code selects; codes out of range fall back to rocky.
pub open spec fn planet_type_of(code: i32) -> PlanetType {
    if code == 1 {
        PlanetType::GasGiant
    } else if code == 2 {
        PlanetType::Rainbow
    } else if code == 3 {
        PlanetType::Glitter
    } else if code == 4 {
        PlanetType::Heart
    } else {
        PlanetType::Rocky
    }
}

impl PlanetType {
    /// Reads the `planet_type` code of the uniforms.
    pub fn from_code(code: i32) -> (r: PlanetType)
        ensures
            r == planet_type_of(code),
    {
        match code {
            1 => PlanetType::GasGiant,
            2 => PlanetType::Rainbow,
            3 => PlanetType::Glitter,
            4 => PlanetType::Heart,
            _ => PlanetType::Rocky,
        }
    }
}

} // verus!
