use vstd::prelude::*;

use crate::brush::Brush;
use crate::font::{
    FontFamily, FontFeature, FontSettings, FontStack, FontStyle, FontVariation, FontWeight,
    FontWidth, GenericFamily,
};
use swash::text::WordBreakStrength;

verus! {

/// swash's word breaking strength: a public enum of three fieldless variants
/// (`Normal`, `BreakAll`, `KeepAll`), declared with its variants visible so
/// that contracts can name them.
#[verifier::external_type_specification]
pub struct ExWordBreakStrength(swash::text::WordBreakStrength);

/// Relies on swash's `Default` for `WordBreakStrength`, derived with
/// `Normal` as the default variant.
pub assume_specification[ <swash::text::WordBreakStrength as core::default::Default>::default ](
) -> (r: swash::text::WordBreakStrength)
    ensures
        r == swash::text::WordBreakStrength::Normal,
;

/// Relies on swash's `Clone` for `WordBreakStrength`, derived on a `Copy`
/// enum: the clone is the same variant.
pub assume_specification[ <swash::text::WordBreakStrength as core::clone::Clone>::clone ](
    w: &swash::text::WordBreakStrength,
) -> (r: swash::text::WordBreakStrength)
    ensures
        r == *w,
;

/// Whether layout collapses runs of white space.
#[derive(Debug, Clone, Copy)]
pub enum WhiteSpaceCollapse {
    Collapse,
    Preserve,
}

/// Control over "emergency" line breaking.
#[derive(Copy, Clone, PartialEq, Eq, Debug, Structural)]
pub enum OverflowWrap {
    /// Even with extremely long words, lines can only break at places allowed
    /// by the word breaking strength.
    Normal,
    /// Words may be broken at an arbitrary point if there are no other places
    /// in the line to break them.
    Anywhere,
    /// Like `Anywhere`, except that arbitrary wrapping opportunities are not
    /// considered when computing the minimum content width.
    BreakWord,
}

impl Default for OverflowWrap {
    fn default() -> (r: OverflowWrap)
        ensures
            r == OverflowWrap::Normal,
    {
        OverflowWrap::Normal
    }
}

/// The bits of 16.0, the default font size.
pub const DEFAULT_FONT_SIZE_BITS: u32 = 0x4180_0000;

/// The bits of 1.2, the default line height multiplier.
pub const DEFAULT_LINE_HEIGHT_BITS: u32 = 0x3f99_999a;

/// One property of a style.
///
/// Sizes, offsets and spacings are the bits of IEEE 754 binary32 numbers.
#[derive(Clone, PartialEq, Debug)]
pub enum StyleProperty<B: Brush> {
    /// Font family stack.
    FontStack(FontStack),
    /// Font size.
    FontSize(u32),
    /// Font width.
    FontWidth(FontWidth),
    /// Font style.
    FontStyle(FontStyle),
    /// Font weight.
    FontWeight(FontWeight),
    /// Font variation settings.
    FontVariations(FontSettings<FontVariation>),
    /// Font feature settings.
    FontFeatures(FontSettings<FontFeature>),
    /// Locale.
    Locale(Option<String>),
    /// Brush for rendering text.
    Brush(B),
    /// Underline decoration.
    Underline(bool),
    /// Offset of the underline decoration.
    UnderlineOffset(Option<u32>),
    /// Size of the underline decoration.
    UnderlineSize(Option<u32>),
    /// Brush for rendering the underline decoration.
    UnderlineBrush(Option<B>),
    /// Strikethrough decoration.
    Strikethrough(bool),
    /// Offset of the strikethrough decoration.
    StrikethroughOffset(Option<u32>),
    /// Size of the strikethrough decoration.
    StrikethroughSize(Option<u32>),
    /// Brush for rendering the strikethrough decoration.
    StrikethroughBrush(Option<B>),
    /// Line height multiplier.
    LineHeight(u32),
    /// Extra spacing between words.
    WordSpacing(u32),
    /// Extra spacing between letters.
    LetterSpacing(u32),
    /// Control over where words can wrap.
    WordBreak(WordBreakStrength),
    /// Control over "emergency" line breaking.
    OverflowWrap(OverflowWrap),
}

impl<B: Brush> StyleProperty<B> {
    /// The position, in declaration order, of the field of `TextStyle` that
    /// this property sets.
    pub open spec fn field_index(self) -> nat {
        match self {
            StyleProperty::FontStack(_) => 0,
            StyleProperty::FontSize(_) => 1,
            StyleProperty::FontWidth(_) => 2,
            StyleProperty::FontStyle(_) => 3,
            StyleProperty::FontWeight(_) => 4,
            StyleProperty::FontVariations(_) => 5,
            StyleProperty::FontFeatures(_) => 6,
            StyleProperty::Locale(_) => 7,
            StyleProperty::Brush(_) => 8,
            StyleProperty::Underline(_) => 9,
            StyleProperty::UnderlineOffset(_) => 10,
            StyleProperty::UnderlineSize(_) => 11,
            StyleProperty::UnderlineBrush(_) => 12,
            StyleProperty::Strikethrough(_) => 13,
            StyleProperty::StrikethroughOffset(_) => 14,
            StyleProperty::StrikethroughSize(_) => 15,
            StyleProperty::StrikethroughBrush(_) => 16,
            StyleProperty::LineHeight(_) => 17,
            StyleProperty::WordSpacing(_) => 18,
            StyleProperty::LetterSpacing(_) => 19,
            StyleProperty::WordBreak(_) => 20,
            StyleProperty::OverflowWrap(_) => 21,
        }
    }
}

/// Unresolved styles.
///
/// Sizes, offsets and spacings are the bits of IEEE 754 binary32 numbers.
#[derive(Clone, PartialEq, Debug)]
pub struct TextStyle<B: Brush> {
    /// Font family stack.
    pub font_stack: FontStack,
    /// Font size.
    pub font_size: u32,
    /// Font width.
    pub font_width: FontWidth,
    /// Font style.
    pub font_style: FontStyle,
    /// Font weight.
    pub font_weight: FontWeight,
    /// Font variation settings.
    pub font_variations: FontSettings<FontVariation>,
    /// Font feature settings.
    pub font_features: FontSettings<FontFeature>,
    /// Locale.
    pub locale: Option<String>,
    /// Brush for rendering text.
    pub brush: B,
    /// Underline decoration.
    pub has_underline: bool,
    /// Offset of the underline decoration.
    pub underline_offset: Option<u32>,
    /// Size of the underline decoration.
    pub underline_size: Option<u32>,
    /// Brush for rendering the underline decoration.
    pub underline_brush: Option<B>,
    /// Strikethrough decoration.
    pub has_strikethrough: bool,
    /// Offset of the strikethrough decoration.
    pub strikethrough_offset: Option<u32>,
    /// Size of the strikethrough decoration.
    pub strikethrough_size: Option<u32>,
    /// Brush for rendering the strikethrough decoration.
    pub strikethrough_brush: Option<B>,
    /// Line height multiplier.
    pub line_height: u32,
    /// Extra spacing between words.
    pub word_spacing: u32,
    /// Extra spacing between letters.
    pub letter_spacing: u32,
    /// Control over where words can wrap.
    pub word_break: WordBreakStrength,
    /// Control over "emergency" line breaking.
    pub overflow_wrap: OverflowWrap,
}

impl<B: Brush> Default for TextStyle<B> {
    fn default() -> (r: TextStyle<B>)
        ensures
            r.font_stack matches FontStack::Source(s) && s@ == "sans-serif"@,
            r.font_size == DEFAULT_FONT_SIZE_BITS,
            r.font_width == FontWidth(crate::font::NORMAL_WIDTH_BITS),
            r.font_style == FontStyle::Normal,
            r.font_weight == FontWeight(crate::font::NORMAL_WEIGHT_BITS),
            r.font_variations matches FontSettings::List(v) && v@.len() == 0,
            r.font_features matches FontSettings::List(v) && v@.len() == 0,
            r.locale is None,
            call_ensures(B::default, (), r.brush),
            !r.has_underline,
            r.underline_offset is None,
            r.underline_size is None,
            r.underline_brush is None,
            !r.has_strikethrough,
            r.strikethrough_offset is None,
            r.strikethrough_size is None,
            r.strikethrough_brush is None,
            r.line_height == DEFAULT_LINE_HEIGHT_BITS,
            r.word_spacing == 0,
            r.letter_spacing == 0,
            r.word_break == WordBreakStrength::Normal,
            r.overflow_wrap == OverflowWrap::Normal,
    {
        TextStyle {
            font_stack: FontStack::Source(String::from_str("sans-serif")),
            font_size: DEFAULT_FONT_SIZE_BITS,
            font_width: FontWidth::default(),
            font_style: FontStyle::default(),
            font_weight: FontWeight::default(),
            font_variations: FontSettings::List(Vec::new()),
            font_features: FontSettings::List(Vec::new()),
            locale: None,
            brush: B::default(),
            has_underline: false,
            underline_offset: None,
            underline_size: None,
            underline_brush: None,
            has_strikethrough: false,
            strikethrough_offset: None,
            strikethrough_size: None,
            strikethrough_brush: None,
            line_height: DEFAULT_LINE_HEIGHT_BITS,
            word_spacing: 0,
            letter_spacing: 0,
            word_break: WordBreakStrength::default(),
            overflow_wrap: OverflowWrap::default(),
        }
    }
}

impl<B: Brush> TextStyle<B> {
    /// This style with the field that `p` names set to `p`'s value.
    pub open spec fn with_property(self, p: StyleProperty<B>) -> TextStyle<B> {
        match p {
            StyleProperty::FontStack(x) => TextStyle { font_stack: x, ..self },
            StyleProperty::FontSize(x) => TextStyle { font_size: x, ..self },
            StyleProperty::FontWidth(x) => TextStyle { font_width: x, ..self },
            StyleProperty::FontStyle(x) => TextStyle { font_style: x, ..self },
            StyleProperty::FontWeight(x) => TextStyle { font_weight: x, ..self },
            StyleProperty::FontVariations(x) => TextStyle { font_variations: x, ..self },
            StyleProperty::FontFeatures(x) => TextStyle { font_features: x, ..self },
            StyleProperty::Locale(x) => TextStyle { locale: x, ..self },
            StyleProperty::Brush(x) => TextStyle { brush: x, ..self },
            StyleProperty::Underline(x) => TextStyle { has_underline: x, ..self },
            StyleProperty::UnderlineOffset(x) => TextStyle { underline_offset: x, ..self },
            StyleProperty::UnderlineSize(x) => TextStyle { underline_size: x, ..self },
            StyleProperty::UnderlineBrush(x) => TextStyle { underline_brush: x, ..self },
            StyleProperty::Strikethrough(x) => TextStyle { has_strikethrough: x, ..self },
            StyleProperty::StrikethroughOffset(x) => TextStyle { strikethrough_offset: x, ..self },
            StyleProperty::StrikethroughSize(x) => TextStyle { strikethrough_size: x, ..self },
            StyleProperty::StrikethroughBrush(x) => TextStyle { strikethrough_brush: x, ..self },
            StyleProperty::LineHeight(x) => TextStyle { line_height: x, ..self },
            StyleProperty::WordSpacing(x) => TextStyle { word_spacing: x, ..self },
            StyleProperty::LetterSpacing(x) => TextStyle { letter_spacing: x, ..self },
            StyleProperty::WordBreak(x) => TextStyle { word_break: x, ..self },
            StyleProperty::OverflowWrap(x) => TextStyle { overflow_wrap: x, ..self },
        }
    }

    /// The current value of the field that `q` names, as a property of the
    /// same variant as `q`.
    pub open spec fn property_like(self, q: StyleProperty<B>) -> StyleProperty<B> {
        match q {
            StyleProperty::FontStack(_) => StyleProperty::FontStack(self.font_stack),
            StyleProperty::FontSize(_) => StyleProperty::FontSize(self.font_size),
            StyleProperty::FontWidth(_) => StyleProperty::FontWidth(self.font_width),
            StyleProperty::FontStyle(_) => StyleProperty::FontStyle(self.font_style),
            StyleProperty::FontWeight(_) => StyleProperty::FontWeight(self.font_weight),
            StyleProperty::FontVariations(_) => StyleProperty::FontVariations(self.font_variations),
            StyleProperty::FontFeatures(_) => StyleProperty::FontFeatures(self.font_features),
            StyleProperty::Locale(_) => StyleProperty::Locale(self.locale),
            StyleProperty::Brush(_) => StyleProperty::Brush(self.brush),
            StyleProperty::Underline(_) => StyleProperty::Underline(self.has_underline),
            StyleProperty::UnderlineOffset(_) => StyleProperty::UnderlineOffset(self.underline_offset),
            StyleProperty::UnderlineSize(_) => StyleProperty::UnderlineSize(self.underline_size),
            StyleProperty::UnderlineBrush(_) => StyleProperty::UnderlineBrush(self.underline_brush),
            StyleProperty::Strikethrough(_) => StyleProperty::Strikethrough(self.has_strikethrough),
            StyleProperty::StrikethroughOffset(_) => StyleProperty::StrikethroughOffset(self.strikethrough_offset),
            StyleProperty::StrikethroughSize(_) => StyleProperty::StrikethroughSize(self.strikethrough_size),
            StyleProperty::StrikethroughBrush(_) => StyleProperty::StrikethroughBrush(self.strikethrough_brush),
            StyleProperty::LineHeight(_) => StyleProperty::LineHeight(self.line_height),
            StyleProperty::WordSpacing(_) => StyleProperty::WordSpacing(self.word_spacing),
            StyleProperty::LetterSpacing(_) => StyleProperty::LetterSpacing(self.letter_spacing),
            StyleProperty::WordBreak(_) => StyleProperty::WordBreak(self.word_break),
            StyleProperty::OverflowWrap(_) => StyleProperty::OverflowWrap(self.overflow_wrap),
        }
    }

    /// Sets the field that `p` names to `p`'s value.
    pub fn apply(&mut self, p: StyleProperty<B>)
        ensures
            *final(self) == old(self).with_property(p),
    {
        match p {
            StyleProperty::FontStack(x) => self.font_stack = x,
            StyleProperty::FontSize(x) => self.font_size = x,
            StyleProperty::FontWidth(x) => self.font_width = x,
            StyleProperty::FontStyle(x) => self.font_style = x,
            StyleProperty::FontWeight(x) => self.font_weight = x,
            StyleProperty::FontVariations(x) => self.font_variations = x,
            StyleProperty::FontFeatures(x) => self.font_features = x,
            StyleProperty::Locale(x) => self.locale = x,
            StyleProperty::Brush(x) => self.brush = x,
            StyleProperty::Underline(x) => self.has_underline = x,
            StyleProperty::UnderlineOffset(x) => self.underline_offset = x,
            StyleProperty::UnderlineSize(x) => self.underline_size = x,
            StyleProperty::UnderlineBrush(x) => self.underline_brush = x,
            StyleProperty::Strikethrough(x) => self.has_strikethrough = x,
            StyleProperty::StrikethroughOffset(x) => self.strikethrough_offset = x,
            StyleProperty::StrikethroughSize(x) => self.strikethrough_size = x,
            StyleProperty::StrikethroughBrush(x) => self.strikethrough_brush = x,
            StyleProperty::LineHeight(x) => self.line_height = x,
            StyleProperty::WordSpacing(x) => self.word_spacing = x,
            StyleProperty::LetterSpacing(x) => self.letter_spacing = x,
            StyleProperty::WordBreak(x) => self.word_break = x,
            StyleProperty::OverflowWrap(x) => self.overflow_wrap = x,
        }
    }
}

/// Applying a property sets exactly the field it names: afterwards that
/// field holds the property's value, and every other field is unchanged.
pub proof fn lemma_apply_sets_one_field<B: Brush>(
    s: TextStyle<B>,
    p: StyleProperty<B>,
    q: StyleProperty<B>,
)
    ensures
        q.field_index() == p.field_index() ==> s.with_property(p).property_like(q) == p,
        q.field_index() != p.field_index() ==> s.with_property(p).property_like(q)
            == s.property_like(q),
{
}

/// A style is determined by its fields: two styles on which every property
/// reads the same are equal.
pub proof fn lemma_style_determined_by_fields<B: Brush>(s: TextStyle<B>, t: TextStyle<B>)
    requires
        forall|q: StyleProperty<B>| #[trigger] s.property_like(q) == t.property_like(q),
    ensures
        s == t,
{
    assert(s.property_like(StyleProperty::FontStack(s.font_stack)) == t.property_like(StyleProperty::FontStack(s.font_stack)));
    assert(s.property_like(StyleProperty::FontSize(s.font_size)) == t.property_like(StyleProperty::FontSize(s.font_size)));
    assert(s.property_like(StyleProperty::FontWidth(s.font_width)) == t.property_like(StyleProperty::FontWidth(s.font_width)));
    assert(s.property_like(StyleProperty::FontStyle(s.font_style)) == t.property_like(StyleProperty::FontStyle(s.font_style)));
    assert(s.property_like(StyleProperty::FontWeight(s.font_weight)) == t.property_like(StyleProperty::FontWeight(s.font_weight)));
    assert(s.property_like(StyleProperty::FontVariations(s.font_variations)) == t.property_like(StyleProperty::FontVariations(s.font_variations)));
    assert(s.property_like(StyleProperty::FontFeatures(s.font_features)) == t.property_like(StyleProperty::FontFeatures(s.font_features)));
    assert(s.property_like(StyleProperty::Locale(s.locale)) == t.property_like(StyleProperty::Locale(s.locale)));
    assert(s.property_like(StyleProperty::Brush(s.brush)) == t.property_like(StyleProperty::Brush(s.brush)));
    assert(s.property_like(StyleProperty::Underline(s.has_underline)) == t.property_like(StyleProperty::Underline(s.has_underline)));
    assert(s.property_like(StyleProperty::UnderlineOffset(s.underline_offset)) == t.property_like(StyleProperty::UnderlineOffset(s.underline_offset)));
    assert(s.property_like(StyleProperty::UnderlineSize(s.underline_size)) == t.property_like(StyleProperty::UnderlineSize(s.underline_size)));
    assert(s.property_like(StyleProperty::UnderlineBrush(s.underline_brush)) == t.property_like(StyleProperty::UnderlineBrush(s.underline_brush)));
    assert(s.property_like(StyleProperty::Strikethrough(s.has_strikethrough)) == t.property_like(StyleProperty::Strikethrough(s.has_strikethrough)));
    assert(s.property_like(StyleProperty::StrikethroughOffset(s.strikethrough_offset)) == t.property_like(StyleProperty::StrikethroughOffset(s.strikethrough_offset)));
    assert(s.property_like(StyleProperty::StrikethroughSize(s.strikethrough_size)) == t.property_like(StyleProperty::StrikethroughSize(s.strikethrough_size)));
    assert(s.property_like(StyleProperty::StrikethroughBrush(s.strikethrough_brush)) == t.property_like(StyleProperty::StrikethroughBrush(s.strikethrough_brush)));
    assert(s.property_like(StyleProperty::LineHeight(s.line_height)) == t.property_like(StyleProperty::LineHeight(s.line_height)));
    assert(s.property_like(StyleProperty::WordSpacing(s.word_spacing)) == t.property_like(StyleProperty::WordSpacing(s.word_spacing)));
    assert(s.property_like(StyleProperty::LetterSpacing(s.letter_spacing)) == t.property_like(StyleProperty::LetterSpacing(s.letter_spacing)));
    assert(s.property_like(StyleProperty::WordBreak(s.word_break)) == t.property_like(StyleProperty::WordBreak(s.word_break)));
    assert(s.property_like(StyleProperty::OverflowWrap(s.overflow_wrap)) == t.property_like(StyleProperty::OverflowWrap(s.overflow_wrap)));
}

/// Properties that name different fields can be applied in either order.
pub proof fn lemma_apply_commutes<B: Brush>(
    s: TextStyle<B>,
    p: StyleProperty<B>,
    q: StyleProperty<B>,
)
    requires
        p.field_index() != q.field_index(),
    ensures
        s.with_property(p).with_property(q) == s.with_property(q).with_property(p),
{
    let a = s.with_property(p).with_property(q);
    let b = s.with_property(q).with_property(p);
    assert forall|r: StyleProperty<B>| #[trigger] a.property_like(r) == b.property_like(r) by {
        lemma_apply_sets_one_field(s.with_property(p), q, r);
        lemma_apply_sets_one_field(s.with_property(q), p, r);
        lemma_apply_sets_one_field(s, p, r);
        lemma_apply_sets_one_field(s, q, r);
    }
    lemma_style_determined_by_fields(a, b);
}

/// Of two properties that name the same field, the one applied last wins.
pub proof fn lemma_apply_last_wins<B: Brush>(
    s: TextStyle<B>,
    p: StyleProperty<B>,
    q: StyleProperty<B>,
)
    requires
        p.field_index() == q.field_index(),
    ensures
        s.with_property(p).with_property(q) == s.with_property(q),
{
    let a = s.with_property(p).with_property(q);
    let b = s.with_property(q);
    assert forall|r: StyleProperty<B>| #[trigger] a.property_like(r) == b.property_like(r) by {
        lemma_apply_sets_one_field(s.with_property(p), q, r);
        lemma_apply_sets_one_field(s, p, r);
        lemma_apply_sets_one_field(s, q, r);
    }
    lemma_style_determined_by_fields(a, b);
}

impl<B: Brush> From<FontStack> for StyleProperty<B> {
    fn from(fs: FontStack) -> (r: StyleProperty<B>)
        ensures
            r == StyleProperty::<B>::FontStack(fs),
    {
        StyleProperty::FontStack(fs)
    }
}

impl<B: Brush> vstd::std_specs::convert::FromSpecImpl<FontStack> for StyleProperty<B> {
    open spec fn obeys_from_spec() -> bool {
        true
    }

    open spec fn from_spec(fs: FontStack) -> StyleProperty<B> {
        StyleProperty::FontStack(fs)
    }
}

impl<'a, B: Brush> From<&'a [FontFamily]> for StyleProperty<B> {
    fn from(fs: &'a [FontFamily]) -> (r: StyleProperty<B>)
        ensures
            r matches StyleProperty::FontStack(FontStack::List(v)) && v@ == fs@,
    {
        StyleProperty::FontStack(FontStack::from(fs))
    }
}

/// A vector is only determined up to its elements, so the conversion is
/// described by the `ensures` of `from` alone.
impl<'a, B: Brush> vstd::std_specs::convert::FromSpecImpl<&'a [FontFamily]> for StyleProperty<B> {
    open spec fn obeys_from_spec() -> bool {
        false
    }

    open spec fn from_spec(fs: &'a [FontFamily]) -> StyleProperty<B> {
        arbitrary()
    }
}

impl<B: Brush> From<FontFamily> for StyleProperty<B> {
    fn from(f: FontFamily) -> (r: StyleProperty<B>)
        ensures
            r == StyleProperty::<B>::FontStack(FontStack::Single(f)),
    {
        StyleProperty::FontStack(FontStack::from(f))
    }
}

impl<B: Brush> vstd::std_specs::convert::FromSpecImpl<FontFamily> for StyleProperty<B> {
    open spec fn obeys_from_spec() -> bool {
        true
    }

    open spec fn from_spec(f: FontFamily) -> StyleProperty<B> {
        StyleProperty::FontStack(FontStack::Single(f))
    }
}

impl<B: Brush> From<GenericFamily> for StyleProperty<B> {
    fn from(g: GenericFamily) -> (r: StyleProperty<B>)
        ensures
            r == StyleProperty::<B>::FontStack(FontStack::Single(FontFamily::Generic(g))),
    {
        StyleProperty::FontStack(FontStack::from(g))
    }
}

impl<B: Brush> vstd::std_specs::convert::FromSpecImpl<GenericFamily> for StyleProperty<B> {
    open spec fn obeys_from_spec() -> bool {
        true
    }

    open spec fn from_spec(g: GenericFamily) -> StyleProperty<B> {
        StyleProperty::FontStack(FontStack::Single(FontFamily::Generic(g)))
    }
}

} // verus!
