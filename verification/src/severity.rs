//! The levels of urgency and their colours.

use vstd::prelude::*;

verus! {

/// Urgency of a failure. The levels are ordered: `Notice` is the mildest,
/// `Critical` the gravest.
#[derive(Clone, Copy, Debug, PartialEq, Eq, Structural, PartialOrd, Ord, Hash)]
pub enum Severity {
    Notice,
    Degraded,
    Critical,
}

/// The number that holds a colour given by its red, green and blue parts:
/// one byte each, red in the most significant of the three.
pub open spec fn rgb_value(red: u8, green: u8, blue: u8) -> u32 {
    (red * 65536 + green * 256 + blue) as u32
}

/// Packs three colour parts into one number.
///
/// Trusted: calls `Colour::from_rgb` of serenity, which shifts red by
/// sixteen bits and green by eight and joins them with blue. The three
/// bytes do not overlap, so the result is `rgb_value`.
#[verifier::external_body]
fn pack_rgb(red: u8, green: u8, blue: u8) -> (packed: u32)
    ensures
        packed == rgb_value(red, green, blue),
{
    poise::serenity_prelude::Colour::from_rgb(red, green, blue).0
}

impl Severity {
    /// Position in the order of the levels.
    pub open spec fn rank(self) -> nat {
        match self {
            Severity::Notice => 0,
            Severity::Degraded => 1,
            Severity::Critical => 2,
        }
    }

    /// Red, green and blue parts of the accent colour of a level.
    pub open spec fn palette(self) -> (u8, u8, u8) {
        match self {
            Severity::Notice => (32, 224, 224),
            Severity::Degraded => (255, 128, 32),
            Severity::Critical => (255, 32, 64),
        }
    }

    /// The accent colour of a level as one number.
    pub open spec fn accent(self) -> u32 {
        rgb_value(self.palette().0, self.palette().1, self.palette().2)
    }

    /// Whether a report of this level notifies everyone.
    pub open spec fn pages_everyone(self) -> bool {
        self == Severity::Critical
    }

    /// The accent colour that a report of this level is shown in.
    pub fn color(&self) -> (c: u32)
        ensures
            c == self.accent(),
    {
        match self {
            Severity::Notice => pack_rgb(32, 224, 224),
            Severity::Degraded => pack_rgb(255, 128, 32),
            Severity::Critical => pack_rgb(255, 32, 64),
        }
    }

    /// Whether `self` is at least as grave as `other`.
    pub fn at_least(&self, other: &Severity) -> (r: bool)
        ensures
            r == (self.rank() >= other.rank()),
    {
        match (self, other) {
            (Severity::Critical, _) => true,
            (Severity::Degraded, Severity::Critical) => false,
            (Severity::Degraded, _) => true,
            (Severity::Notice, Severity::Notice) => true,
            (Severity::Notice, _) => false,
        }
    }
}

impl Default for Severity {
    /// The mildest level.
    fn default() -> (s: Severity)
        ensures
            s == Severity::Notice,
    {
        Severity::Notice
    }
}

/// The palette gives each level a colour of its own.
pub proof fn lemma_palette_distinct(a: Severity, b: Severity)
    ensures
        a.accent() == b.accent() <==> a == b,
{
}

/// The palette's numbers, written out.
pub proof fn lemma_palette_values()
    ensures
        Severity::Notice.accent() == 0x20E0E0,
        Severity::Degraded.accent() == 0xFF8020,
        Severity::Critical.accent() == 0xFF2040,
{
}

} // verus!
