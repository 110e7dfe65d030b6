//! Colours of the embeds, as the chat library holds them.

use rand::Rng;
use serenity::utils::Colour;
use vstd::prelude::*;

verus! {

/// `serenity::utils::Colour`, carried through as an opaque value.
#[verifier::external_type_specification]
#[verifier::external_body]
pub struct ExColour(Colour);

/// The red, green and blue parts of a colour, as `Colour::tuple` gives them.
pub uninterp spec fn colour_rgb(c: Colour) -> (u8, u8, u8);

/// `Colour::from_rgb` makes the colour with the given red, green and blue
/// parts: `Colour::tuple` reads the same three back from it.
pub assume_specification[ Colour::from_rgb ](red: u8, green: u8, blue: u8) -> (c: Colour)
    ensures
        colour_rgb(c) == (red, green, blue),
;

/// The parts of the preset gold.
pub open spec fn gold_rgb() -> (u8, u8, u8) {
    (241u8, 196u8, 15u8)
}

/// The parts of the preset dark green.
pub open spec fn dark_green_rgb() -> (u8, u8, u8) {
    (31u8, 139u8, 76u8)
}

/// `Colour::GOLD`, the preset with the RGB value `(241, 196, 15)`.
#[verifier::external_body]
pub(crate) fn gold() -> (c: Colour)
    ensures
        colour_rgb(c) == gold_rgb(),
{
    Colour::GOLD
}

/// `Colour::DARK_GREEN`, the preset with the RGB value `(31, 139, 76)`.
#[verifier::external_body]
pub(crate) fn dark_green() -> (c: Colour)
    ensures
        colour_rgb(c) == dark_green_rgb(),
{
    Colour::DARK_GREEN
}

/// A draw from `low..high` by `rand`'s thread-local generator
/// (`Rng::gen_range`). Nothing is claimed of the draw but that it lies in the
/// range; `gen_range` panics on an empty range, which `requires` leaves out.
/// The generator takes its seed from the system, on a thread's first draw
/// and again after many draws; it panics where the system's random source
/// fails, which no `requires` can leave out.
#[verifier::external_body]
pub(crate) fn random_in(low: u8, high: u8) -> (n: u8)
    requires
        low < high,
    ensures
        low <= n < high,
{
    rand::thread_rng().gen_range(low..high)
}

} // verus!
