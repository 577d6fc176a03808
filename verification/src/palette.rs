//! The colours of the default system, taken from the palette of the
//! drawing library. A colour is carried as it is: nothing is stated of its
//! red, green and blue parts.

use plotters::style::RGBColor;
use vstd::prelude::*;

verus! {

/// The constant `plotters::style::colors::YELLOW`.
#[verifier::external_body]
pub(crate) fn yellow() -> RGBColor {
    plotters::style::colors::YELLOW
}

/// The constant `plotters::style::colors::WHITE`.
#[verifier::external_body]
pub(crate) fn white() -> RGBColor {
    plotters::style::colors::WHITE
}

/// The constant `plotters::style::colors::RED`.
#[verifier::external_body]
pub(crate) fn red() -> RGBColor {
    plotters::style::colors::RED
}

/// The constant `plotters::style::colors::BLUE`.
#[verifier::external_body]
pub(crate) fn blue() -> RGBColor {
    plotters::style::colors::BLUE
}

/// The constant `plotters::style::full_palette::PURPLE`.
#[verifier::external_body]
pub(crate) fn purple() -> RGBColor {
    plotters::style::full_palette::PURPLE
}

/// The constant `plotters::style::full_palette::BLUE_300`.
#[verifier::external_body]
pub(crate) fn blue_300() -> RGBColor {
    plotters::style::full_palette::BLUE_300
}

/// The constant `plotters::style::full_palette::BLUE_100`.
#[verifier::external_body]
pub(crate) fn blue_100() -> RGBColor {
    plotters::style::full_palette::BLUE_100
}

/// The constant `plotters::style::full_palette::GREY`.
#[verifier::external_body]
pub(crate) fn grey() -> RGBColor {
    plotters::style::full_palette::GREY
}

/// The constant `plotters::style::full_palette::ORANGE`.
#[verifier::external_body]
pub(crate) fn orange() -> RGBColor {
    plotters::style::full_palette::ORANGE
}

/// The tuple constructor `plotters::style::RGBColor`, applied to the red,
/// green and blue parts.
#[verifier::external_body]
pub(crate) fn rgb(red: u8, green: u8, blue: u8) -> RGBColor {
    RGBColor(red, green, blue)
}

} // verus!
