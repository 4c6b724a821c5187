use vstd::prelude::*;

verus! {

/// Radius, in canvas pixels, of the disc drawn for every particle.
pub const PARTICLE_RADIUS: i32 = 10;

/// The sign class of a charge. It decides how a particle is drawn, whether it
/// emits field lines (only `Positive` does) and whether it captures them
/// (only `Negative` does).
#[derive(Clone, Copy, Debug, PartialEq, Eq, Structural)]
pub enum Particle {
    Positive,
    Negative,
    Neutral,
}

/// Sign class of a magnitude counted in elementary-charge steps.
pub open spec fn sign_class(steps: int) -> Particle {
    if steps > 0 {
        Particle::Positive
    } else if steps < 0 {
        Particle::Negative
    } else {
        Particle::Neutral
    }
}

/// A point charge: a canvas position and a signed magnitude counted in
/// elementary-charge steps. Charges never change once placed.
#[derive(Clone, Copy, Debug, PartialEq, Eq, Structural)]
pub struct Charge {
    pub x: i32,
    pub y: i32,
    pub steps: i64,
}

impl Charge {
    /// The sign class of this charge.
    pub open spec fn class(self) -> Particle {
        sign_class(self.steps as int)
    }

    /// A charge emits field lines exactly when its magnitude is positive.
    pub open spec fn is_source(self) -> bool {
        self.steps > 0
    }

    /// A charge captures field lines exactly when its magnitude is negative.
    pub open spec fn is_sink(self) -> bool {
        self.steps < 0
    }

    pub fn particle(&self) -> (p: Particle)
        ensures
            p == self.class(),
    {
        if self.steps > 0 {
            Particle::Positive
        } else if self.steps < 0 {
            Particle::Negative
        } else {
            Particle::Neutral
        }
    }
}

} // verus!
