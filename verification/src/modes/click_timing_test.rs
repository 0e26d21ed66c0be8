use super::click_timing_reaction_test::types::CrosshairStyle;
use vstd::prelude::*;

verus! {

pub open spec fn crosshair_style_text(style: CrosshairStyle) -> Seq<char> {
    match style {
        CrosshairStyle::Regular => "Regular"@,
        CrosshairStyle::Plus => "Plus"@,
        CrosshairStyle::CircularDot => "Circular dot"@,
    }
}

/// The name a crosshair style is offered under in the settings.
pub fn crosshair_style_label(style: CrosshairStyle) -> (r: &'static str)
    ensures
        r@ == crosshair_style_text(style),
{
    match style {
        CrosshairStyle::Regular => "Regular",
        CrosshairStyle::Plus => "Plus",
        CrosshairStyle::CircularDot => "Circular dot",
    }
}

} // verus!
