use vstd::prelude::*;
use crate::geometry::Rect;
use crate::particle::{Particle, PARTICLE_RADIUS};

verus! {

/// An opaque colour.
#[derive(Clone, Copy, Debug, PartialEq, Eq, Structural)]
pub struct Color {
    pub r: u8,
    pub g: u8,
    pub b: u8,
}

/// Where the icon of one particle goes. Icon coordinates are 16 bits wide.
#[derive(Clone, Copy, Debug, PartialEq, Eq, Structural)]
pub struct Placement {
    pub particle: Particle,
    pub x: i16,
    pub y: i16,
}

/// How one particle is drawn: a filled disc, and on it a glyph made of bars.
pub struct Icon {
    /// Centre of the disc.
    pub x: i16,
    pub y: i16,
    pub radius: i16,
    /// Colour of the disc.
    pub fill: Color,
    /// Colour of the glyph.
    pub ink: Color,
    /// The bars of the glyph, in drawing order.
    pub glyph: Vec<Rect>,
}

/// Red for a positive particle, blue for a negative one, grey for a neutral
/// one.
pub open spec fn fill_color(particle: Particle) -> Color {
    match particle {
        Particle::Positive => Color { r: 255, g: 0, b: 0 },
        Particle::Negative => Color { r: 0, g: 0, b: 255 },
        Particle::Neutral => Color { r: 50, g: 50, b: 50 },
    }
}

/// Glyphs are white.
pub open spec fn ink_color() -> Color {
    Color { r: 255, g: 255, b: 255 }
}

/// The upright bar of a plus sign centred on `(x, y)`: a fifth of the radius
/// wide and one radius tall.
pub open spec fn upright_bar(x: int, y: int) -> Rect {
    Rect::clamped(
        x - PARTICLE_RADIUS / 10,
        y - PARTICLE_RADIUS / 2,
        PARTICLE_RADIUS / 5,
        PARTICLE_RADIUS as int,
    )
}

/// The level bar of a plus or minus sign centred on `(x, y)`: one radius wide
/// and a fifth of the radius tall.
pub open spec fn level_bar(x: int, y: int) -> Rect {
    Rect::clamped(
        x - PARTICLE_RADIUS / 2,
        y - PARTICLE_RADIUS / 10,
        PARTICLE_RADIUS as int,
        PARTICLE_RADIUS / 5,
    )
}

/// A plus sign on a positive particle, a minus sign on a negative one,
/// nothing on a neutral one.
pub open spec fn glyph_bars(particle: Particle, x: int, y: int) -> Seq<Rect> {
    match particle {
        Particle::Positive => seq![upright_bar(x, y), level_bar(x, y)],
        Particle::Negative => seq![level_bar(x, y)],
        Particle::Neutral => Seq::empty(),
    }
}

/// The icon of a particle of the given class centred on `(x, y)`.
pub fn draw_particle(particle: Particle, x: i16, y: i16) -> (icon: Icon)
    ensures
        icon.x == x,
        icon.y == y,
        icon.radius == PARTICLE_RADIUS,
        icon.fill == fill_color(particle),
        icon.ink == ink_color(),
        icon.glyph@ == glyph_bars(particle, x as int, y as int),
{
    let cx: i32 = x as i32;
    let cy: i32 = y as i32;
    let long: u32 = PARTICLE_RADIUS as u32;
    let short: u32 = (PARTICLE_RADIUS / 5) as u32;
    let mut glyph: Vec<Rect> = Vec::new();
    let fill = match particle {
        Particle::Positive => {
            glyph.push(
                Rect::new(cx - PARTICLE_RADIUS / 10, cy - PARTICLE_RADIUS / 2, short, long),
            );
            glyph.push(
                Rect::new(cx - PARTICLE_RADIUS / 2, cy - PARTICLE_RADIUS / 10, long, short),
            );
            Color { r: 255, g: 0, b: 0 }
        },
        Particle::Negative => {
            glyph.push(
                Rect::new(cx - PARTICLE_RADIUS / 2, cy - PARTICLE_RADIUS / 10, long, short),
            );
            Color { r: 0, g: 0, b: 255 }
        },
        Particle::Neutral => Color { r: 50, g: 50, b: 50 },
    };
    Icon {
        x,
        y,
        radius: PARTICLE_RADIUS as i16,
        fill,
        ink: Color { r: 255, g: 255, b: 255 },
        glyph,
    }
}

} // verus!
