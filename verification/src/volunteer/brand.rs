//! A restrained palette: rose, smoked cyan, ember amber, ash violet and warm bone. Colours that mean
//! something reuse those tones.

use vstd::prelude::*;

verus! {

/// A colour, by its parts of red, green and blue.
pub type Rgb = (u8, u8, u8);

/// Burnt rose.
pub const BRAND_A: Rgb = (218, 78, 138);

/// Smoked cyan.
pub const BRAND_B: Rgb = (82, 184, 205);

pub const ACCENT_AMBER: Rgb = (226, 136, 68);

pub const ACCENT_VIOLET: Rgb = (168, 92, 188);

pub const BLOOM_BONE: Rgb = (226, 204, 184);

pub const BASE_EMBER: Rgb = (72, 56, 56);

pub const SUCCESS: Rgb = BRAND_B;

pub const WARN: Rgb = ACCENT_AMBER;

pub const DANGER: Rgb = BRAND_A;

pub const DIM: Rgb = (116, 98, 104);

pub const INK: Rgb = BLOOM_BONE;

pub const PANEL: Rgb = (20, 18, 22);

pub const PANEL_HI: Rgb = (70, 56, 64);

} // verus!
