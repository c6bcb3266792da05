//! Helpers that the brand pages use to draw avatars.
use vstd::prelude::*;
use vstd::string::*;

use crate::text::{
    all_white_space, byte_sum, color_for, color_of, first_upper, first_upper_of, law_trim_ignores_padding, trim_chars,
    trim_str,
};

verus! {

/// The upper-cased first character of the trimmed brand name, or `؟` for a
/// blank name.
pub fn first_letter(name: &str) -> (r: String)
    ensures
        r@ == first_upper(trim_chars(name@), "؟"@),
{
    first_upper_of(trim_str(name), "؟")
}

/// The avatar colour of a brand name: always the same colour for the same
/// name, one of the six of the palette.
pub fn initial_color(name: &str) -> (r: String)
    requires
        byte_sum(name.spec_bytes()) <= u32::MAX,
    ensures
        r@ == color_of(name),
{
    color_for(name)
}

} // verus!

verus! {

/// White space around a brand name does not change its avatar letter.
pub proof fn law_first_letter_ignores_padding(name: Seq<char>, before: Seq<char>, after: Seq<char>)
    requires
        all_white_space(before),
        all_white_space(after),
    ensures
        first_upper(trim_chars(before + name + after), "؟"@) == first_upper(trim_chars(name), "؟"@),
{
    law_trim_ignores_padding(before, name, after);
}

} // verus!
