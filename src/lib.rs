//! Unresolved text styles: the properties a caller attaches to ranges of text
//! before layout resolves them.
//!
//! Sizes, offsets, spacings, weights and widths are carried as the bits of
//! IEEE 754 binary32 numbers (`f32::to_bits`), so that a style is a plain
//! value that can be compared exactly.

mod brush;
mod font;
mod style;
mod styleset;

pub use brush::Brush;
pub use font::{
    FontFamily, FontFeature, FontSettings, FontStack, FontStyle, FontVariation, FontWeight,
    FontWidth, GenericFamily, NORMAL_WEIGHT_BITS, NORMAL_WIDTH_BITS,
};
pub use style::{
    lemma_apply_commutes, lemma_apply_last_wins, lemma_apply_sets_one_field,
    lemma_style_determined_by_fields, OverflowWrap, StyleProperty, TextStyle, WhiteSpaceCollapse,
    DEFAULT_FONT_SIZE_BITS, DEFAULT_LINE_HEIGHT_BITS,
};
pub use styleset::{
    lemma_register_twice_replaces, lemma_registered_push, lemma_unregistered_absent, registered,
    StyleSet,
};
pub use swash::text::WordBreakStrength;
