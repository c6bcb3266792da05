//! Helpers that the product variant pages use to draw avatars.
use vstd::prelude::*;
use vstd::string::*;

use crate::text::{byte_sum, color_for, color_of, first_upper, first_upper_of};

verus! {

/// The upper-cased first character of the name, or `?` for an empty name.
pub fn first_letter(name: &str) -> (r: String)
    ensures
        r@ == first_upper(name@, "?"@),
{
    first_upper_of(name, "?")
}

/// The avatar colour of a name: always the same colour for the same name,
/// one of the six of the palette.
pub fn initial_color(name: &str) -> (r: String)
    requires
        byte_sum(name.spec_bytes()) <= u32::MAX,
    ensures
        r@ == color_of(name),
{
    color_for(name)
}

} // verus!
