use parley_style::{
    FontFamily, FontFeature, FontSettings, FontStack, FontStyle, FontVariation, FontWeight,
    FontWidth, GenericFamily, OverflowWrap, StyleProperty, TextStyle, WhiteSpaceCollapse,
    WordBreakStrength,
};

#[derive(Clone, PartialEq, Default, Debug)]
struct Color(u32);

fn bits(x: f32) -> u32 {
    x.to_bits()
}

#[test]
fn default_style_has_documented_values() {
    let s = TextStyle::<Color>::default();
    assert_eq!(s.font_stack, FontStack::Source("sans-serif".to_string()));
    assert_eq!(f32::from_bits(s.font_size), 16.0);
    assert_eq!(f32::from_bits(s.font_width.0), 1.0);
    assert_eq!(s.font_style, FontStyle::Normal);
    assert_eq!(f32::from_bits(s.font_weight.0), 400.0);
    assert_eq!(s.font_variations, FontSettings::List(vec![]));
    assert_eq!(s.font_features, FontSettings::List(vec![]));
    assert_eq!(s.locale, None);
    assert_eq!(s.brush, Color(0));
    assert!(!s.has_underline);
    assert_eq!(s.underline_offset, None);
    assert_eq!(s.underline_size, None);
    assert_eq!(s.underline_brush, None);
    assert!(!s.has_strikethrough);
    assert_eq!(s.strikethrough_offset, None);
    assert_eq!(s.strikethrough_size, None);
    assert_eq!(s.strikethrough_brush, None);
    assert_eq!(f32::from_bits(s.line_height), 1.2);
    assert_eq!(f32::from_bits(s.word_spacing), 0.0);
    assert_eq!(f32::from_bits(s.letter_spacing), 0.0);
    assert_eq!(s.word_break, WordBreakStrength::Normal);
    assert_eq!(s.overflow_wrap, OverflowWrap::Normal);
}

#[test]
fn default_bits_constants_match_floats() {
    assert_eq!(parley_style::DEFAULT_FONT_SIZE_BITS, bits(16.0));
    assert_eq!(parley_style::DEFAULT_LINE_HEIGHT_BITS, bits(1.2));
    assert_eq!(parley_style::NORMAL_WEIGHT_BITS, bits(400.0));
    assert_eq!(parley_style::NORMAL_WIDTH_BITS, bits(1.0));
    assert_eq!(FontWeight::default(), FontWeight(bits(400.0)));
    assert_eq!(FontWidth::default(), FontWidth(bits(1.0)));
    assert_eq!(FontStyle::default(), FontStyle::Normal);
}

#[test]
fn single_family_becomes_single_entry_stack() {
    let p = StyleProperty::<Color>::from(FontFamily::named("Inter"));
    assert_eq!(
        p,
        StyleProperty::FontStack(FontStack::Single(FontFamily::Named("Inter".to_string())))
    );
}

#[test]
fn family_list_keeps_order() {
    let fams = vec![
        FontFamily::named("Inter"),
        FontFamily::Generic(GenericFamily::Serif),
        FontFamily::named("Noto Sans"),
    ];
    let p = StyleProperty::<Color>::from(&fams[..]);
    match p {
        StyleProperty::FontStack(FontStack::List(v)) => assert_eq!(v, fams),
        other => panic!("unexpected property {:?}", other),
    }
    let reversed: Vec<FontFamily> = fams.iter().rev().cloned().collect();
    let q = StyleProperty::<Color>::from(&reversed[..]);
    assert_eq!(q, StyleProperty::FontStack(FontStack::List(reversed.clone())));
    assert_ne!(q, StyleProperty::FontStack(FontStack::List(fams.clone())));
}

#[test]
fn empty_family_list_is_empty_stack() {
    let fams: Vec<FontFamily> = vec![];
    let p = StyleProperty::<Color>::from(&fams[..]);
    assert_eq!(p, StyleProperty::FontStack(FontStack::List(vec![])));
}

#[test]
fn generic_family_becomes_generic_stack() {
    let p = StyleProperty::<Color>::from(GenericFamily::Monospace);
    assert_eq!(
        p,
        StyleProperty::FontStack(FontStack::Single(FontFamily::Generic(GenericFamily::Monospace)))
    );
    let named = StyleProperty::<Color>::from(FontFamily::named("monospace"));
    assert_ne!(p, named);
}

#[test]
fn font_stack_converts_unchanged() {
    let stack = FontStack::from("Inter, sans-serif");
    assert_eq!(stack, FontStack::Source("Inter, sans-serif".to_string()));
    let p = StyleProperty::<Color>::from(stack.clone());
    assert_eq!(p, StyleProperty::FontStack(stack));
    assert_eq!(
        FontStack::from(GenericFamily::Emoji),
        FontStack::Single(FontFamily::Generic(GenericFamily::Emoji))
    );
    assert_eq!(FontFamily::from(GenericFamily::Math), FontFamily::Generic(GenericFamily::Math));
}

#[test]
fn font_settings_from_text_and_list() {
    let s = FontSettings::<FontFeature>::from("\"liga\" on");
    assert_eq!(s, FontSettings::Source("\"liga\" on".to_string()));
    let items = [
        FontFeature { tag: u32::from_be_bytes(*b"liga"), value: 1 },
        FontFeature { tag: u32::from_be_bytes(*b"kern"), value: 0 },
    ];
    let l = FontSettings::from(&items[..]);
    assert_eq!(l, FontSettings::List(items.to_vec()));
    let axes = [FontVariation { tag: u32::from_be_bytes(*b"wght"), value: bits(650.0) }];
    assert_eq!(FontSettings::from(&axes[..]), FontSettings::List(axes.to_vec()));
}

fn all_properties() -> Vec<StyleProperty<Color>> {
    vec![
        StyleProperty::FontStack(FontStack::from("serif")),
        StyleProperty::FontSize(bits(24.0)),
        StyleProperty::FontWidth(FontWidth(bits(0.75))),
        StyleProperty::FontStyle(FontStyle::Oblique(Some(bits(14.0)))),
        StyleProperty::FontWeight(FontWeight(bits(700.0))),
        StyleProperty::FontVariations(FontSettings::Source("\"wght\" 500".to_string())),
        StyleProperty::FontFeatures(FontSettings::List(vec![FontFeature { tag: 1, value: 2 }])),
        StyleProperty::Locale(Some("en-US".to_string())),
        StyleProperty::Brush(Color(7)),
        StyleProperty::Underline(true),
        StyleProperty::UnderlineOffset(Some(bits(2.0))),
        StyleProperty::UnderlineSize(Some(bits(1.5))),
        StyleProperty::UnderlineBrush(Some(Color(3))),
        StyleProperty::Strikethrough(true),
        StyleProperty::StrikethroughOffset(Some(bits(-4.0))),
        StyleProperty::StrikethroughSize(Some(bits(0.5))),
        StyleProperty::StrikethroughBrush(Some(Color(9))),
        StyleProperty::LineHeight(bits(1.5)),
        StyleProperty::WordSpacing(bits(3.0)),
        StyleProperty::LetterSpacing(bits(0.25)),
        StyleProperty::WordBreak(WordBreakStrength::KeepAll),
        StyleProperty::OverflowWrap(OverflowWrap::Anywhere),
    ]
}

fn expected_after(base: &TextStyle<Color>, p: &StyleProperty<Color>) -> TextStyle<Color> {
    let b = base.clone();
    match p.clone() {
        StyleProperty::FontStack(x) => TextStyle { font_stack: x, ..b },
        StyleProperty::FontSize(x) => TextStyle { font_size: x, ..b },
        StyleProperty::FontWidth(x) => TextStyle { font_width: x, ..b },
        StyleProperty::FontStyle(x) => TextStyle { font_style: x, ..b },
        StyleProperty::FontWeight(x) => TextStyle { font_weight: x, ..b },
        StyleProperty::FontVariations(x) => TextStyle { font_variations: x, ..b },
        StyleProperty::FontFeatures(x) => TextStyle { font_features: x, ..b },
        StyleProperty::Locale(x) => TextStyle { locale: x, ..b },
        StyleProperty::Brush(x) => TextStyle { brush: x, ..b },
        StyleProperty::Underline(x) => TextStyle { has_underline: x, ..b },
        StyleProperty::UnderlineOffset(x) => TextStyle { underline_offset: x, ..b },
        StyleProperty::UnderlineSize(x) => TextStyle { underline_size: x, ..b },
        StyleProperty::UnderlineBrush(x) => TextStyle { underline_brush: x, ..b },
        StyleProperty::Strikethrough(x) => TextStyle { has_strikethrough: x, ..b },
        StyleProperty::StrikethroughOffset(x) => TextStyle { strikethrough_offset: x, ..b },
        StyleProperty::StrikethroughSize(x) => TextStyle { strikethrough_size: x, ..b },
        StyleProperty::StrikethroughBrush(x) => TextStyle { strikethrough_brush: x, ..b },
        StyleProperty::LineHeight(x) => TextStyle { line_height: x, ..b },
        StyleProperty::WordSpacing(x) => TextStyle { word_spacing: x, ..b },
        StyleProperty::LetterSpacing(x) => TextStyle { letter_spacing: x, ..b },
        StyleProperty::WordBreak(x) => TextStyle { word_break: x, ..b },
        StyleProperty::OverflowWrap(x) => TextStyle { overflow_wrap: x, ..b },
    }
}

#[test]
fn each_property_changes_only_its_field() {
    let base = TextStyle::<Color>::default();
    let props = all_properties();
    assert_eq!(props.len(), 22);
    for p in &props {
        let mut s = base.clone();
        s.apply(p.clone());
        assert_eq!(s, expected_after(&base, p));
        assert_ne!(s, base);
    }
}

#[test]
fn apply_order_of_distinct_fields_does_not_matter() {
    let props = all_properties();
    let mut forward = TextStyle::<Color>::default();
    for p in props.iter() {
        forward.apply(p.clone());
    }
    let mut backward = TextStyle::<Color>::default();
    for p in props.iter().rev() {
        backward.apply(p.clone());
    }
    assert_eq!(forward, backward);
}

#[test]
fn last_applied_value_wins() {
    let mut s = TextStyle::<Color>::default();
    s.apply(StyleProperty::FontSize(bits(10.0)));
    s.apply(StyleProperty::FontSize(bits(12.0)));
    assert_eq!(f32::from_bits(s.font_size), 12.0);
    s.apply(StyleProperty::WordBreak(WordBreakStrength::BreakAll));
    assert_eq!(s.word_break, WordBreakStrength::BreakAll);
}

#[test]
fn overflow_wrap_equality_and_default() {
    let all = [OverflowWrap::Normal, OverflowWrap::Anywhere, OverflowWrap::BreakWord];
    for (i, a) in all.iter().enumerate() {
        for (j, b) in all.iter().enumerate() {
            assert_eq!(a == b, i == j);
        }
    }
    assert_eq!(OverflowWrap::default(), OverflowWrap::Normal);
}

#[test]
fn word_break_property_clones_its_value() {
    let p = StyleProperty::<Color>::WordBreak(WordBreakStrength::KeepAll);
    assert_eq!(p.clone(), StyleProperty::WordBreak(WordBreakStrength::KeepAll));
}

#[test]
fn white_space_collapse_is_copy() {
    let a = WhiteSpaceCollapse::Preserve;
    let b = a;
    assert!(matches!(a, WhiteSpaceCollapse::Preserve));
    assert!(matches!(b, WhiteSpaceCollapse::Preserve));
    assert!(matches!(WhiteSpaceCollapse::Collapse, WhiteSpaceCollapse::Collapse));
}
