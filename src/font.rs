use vstd::prelude::*;

verus! {

/// A generic fallback category of fonts.
#[derive(Copy, Clone, PartialEq, Eq, Hash, Debug, Structural)]
pub enum GenericFamily {
    Serif,
    SansSerif,
    Monospace,
    Cursive,
    Fantasy,
    SystemUi,
    UiSerif,
    UiSansSerif,
    UiMonospace,
    UiRounded,
    Emoji,
    Math,
    FangSong,
}

/// A single font family: either a family name or a generic category.
#[derive(PartialEq, Eq, Debug)]
pub enum FontFamily {
    /// A family given by its name.
    Named(String),
    /// A generic fallback category.
    Generic(GenericFamily),
}

impl Clone for FontFamily {
    fn clone(&self) -> (r: Self)
        ensures
            r == *self,
    {
        match self {
            FontFamily::Named(name) => FontFamily::Named(name.clone()),
            FontFamily::Generic(g) => FontFamily::Generic(*g),
        }
    }
}

impl FontFamily {
    /// A family given by its name.
    pub fn named(name: &str) -> (r: FontFamily)
        ensures
            r matches FontFamily::Named(n) && n@ == name@,
    {
        FontFamily::Named(String::from_str(name))
    }
}

impl From<GenericFamily> for FontFamily {
    fn from(g: GenericFamily) -> (r: FontFamily)
        ensures
            r == FontFamily::Generic(g),
    {
        FontFamily::Generic(g)
    }
}

impl vstd::std_specs::convert::FromSpecImpl<GenericFamily> for FontFamily {
    open spec fn obeys_from_spec() -> bool {
        true
    }

    open spec fn from_spec(g: GenericFamily) -> FontFamily {
        FontFamily::Generic(g)
    }
}

/// An ordered list of font families to try, earlier entries preferred.
#[derive(Clone, PartialEq, Eq, Debug)]
pub enum FontStack {
    /// Families written as one comma separated text, not yet parsed.
    Source(String),
    /// A single family.
    Single(FontFamily),
    /// An explicit list of families, in order of preference.
    List(Vec<FontFamily>),
}

impl FontStack {
    /// The families of the stack in order of preference, where they are given
    /// one by one (`None` for a stack still held as source text).
    pub open spec fn families(self) -> Option<Seq<FontFamily>> {
        match self {
            FontStack::Source(_) => None,
            FontStack::Single(f) => Some(seq![f]),
            FontStack::List(fs) => Some(fs@),
        }
    }
}

/// Copies the families of `fs` in order into a new vector.
fn copy_families(fs: &[FontFamily]) -> (r: Vec<FontFamily>)
    ensures
        r@ == fs@,
{
    let mut r: Vec<FontFamily> = Vec::new();
    let mut i: usize = 0;
    while i < fs.len()
        invariant
            i <= fs@.len(),
            r@ == fs@.subrange(0, i as int),
        decreases fs@.len() - i,
    {
        r.push(fs[i].clone());
        i = i + 1;
    }
    assert(fs@.subrange(0, fs@.len() as int) == fs@);
    r
}

impl<'a> From<&'a str> for FontStack {
    fn from(source: &'a str) -> (r: FontStack)
        ensures
            r matches FontStack::Source(s) && s@ == source@,
    {
        FontStack::Source(String::from_str(source))
    }
}

/// A string is only determined up to its characters, so the conversion is
/// described by the `ensures` of `from` alone.
impl<'a> vstd::std_specs::convert::FromSpecImpl<&'a str> for FontStack {
    open spec fn obeys_from_spec() -> bool {
        false
    }

    open spec fn from_spec(source: &'a str) -> FontStack {
        arbitrary()
    }
}

impl From<FontFamily> for FontStack {
    fn from(f: FontFamily) -> (r: FontStack)
        ensures
            r == FontStack::Single(f),
    {
        FontStack::Single(f)
    }
}

impl vstd::std_specs::convert::FromSpecImpl<FontFamily> for FontStack {
    open spec fn obeys_from_spec() -> bool {
        true
    }

    open spec fn from_spec(f: FontFamily) -> FontStack {
        FontStack::Single(f)
    }
}

impl From<GenericFamily> for FontStack {
    fn from(g: GenericFamily) -> (r: FontStack)
        ensures
            r == FontStack::Single(FontFamily::Generic(g)),
    {
        FontStack::Single(FontFamily::Generic(g))
    }
}

impl vstd::std_specs::convert::FromSpecImpl<GenericFamily> for FontStack {
    open spec fn obeys_from_spec() -> bool {
        true
    }

    open spec fn from_spec(g: GenericFamily) -> FontStack {
        FontStack::Single(FontFamily::Generic(g))
    }
}

impl<'a> From<&'a [FontFamily]> for FontStack {
    fn from(fs: &'a [FontFamily]) -> (r: FontStack)
        ensures
            r matches FontStack::List(v) && v@ == fs@,
    {
        FontStack::List(copy_families(fs))
    }
}

/// A vector is only determined up to its elements, so the conversion is
/// described by the `ensures` of `from` alone.
impl<'a> vstd::std_specs::convert::FromSpecImpl<&'a [FontFamily]> for FontStack {
    open spec fn obeys_from_spec() -> bool {
        false
    }

    open spec fn from_spec(fs: &'a [FontFamily]) -> FontStack {
        arbitrary()
    }
}

/// An OpenType feature setting: a four byte tag and its value.
#[derive(Copy, Clone, PartialEq, Eq, Hash, Debug, Structural)]
pub struct FontFeature {
    /// The feature's tag, its four bytes read big-endian.
    pub tag: u32,
    /// The feature's value.
    pub value: u16,
}

/// An OpenType variation axis setting: a four byte tag and a coordinate.
#[derive(Copy, Clone, PartialEq, Eq, Hash, Debug, Structural)]
pub struct FontVariation {
    /// The axis tag, its four bytes read big-endian.
    pub tag: u32,
    /// The coordinate on the axis, as the bits of an IEEE 754 binary32 number.
    pub value: u32,
}

/// Font feature or variation settings: source text, or an explicit list.
#[derive(Clone, PartialEq, Eq, Debug)]
pub enum FontSettings<T> {
    /// Settings written as text, not yet parsed.
    Source(String),
    /// Settings given one by one, in order.
    List(Vec<T>),
}

/// Copies the settings of `items` in order into a new vector.
fn copy_settings<T: Copy>(items: &[T]) -> (r: Vec<T>)
    ensures
        r@ == items@,
{
    let mut r: Vec<T> = Vec::new();
    let mut i: usize = 0;
    while i < items.len()
        invariant
            i <= items@.len(),
            r@ == items@.subrange(0, i as int),
        decreases items@.len() - i,
    {
        r.push(items[i]);
        i = i + 1;
    }
    assert(items@.subrange(0, items@.len() as int) == items@);
    r
}

impl<'a, T> From<&'a str> for FontSettings<T> {
    fn from(source: &'a str) -> (r: FontSettings<T>)
        ensures
            r matches FontSettings::Source(s) && s@ == source@,
    {
        FontSettings::Source(String::from_str(source))
    }
}

/// Described by the `ensures` of `from` alone, as for a font stack.
impl<'a, T> vstd::std_specs::convert::FromSpecImpl<&'a str> for FontSettings<T> {
    open spec fn obeys_from_spec() -> bool {
        false
    }

    open spec fn from_spec(source: &'a str) -> FontSettings<T> {
        arbitrary()
    }
}

impl<'a, T: Copy> From<&'a [T]> for FontSettings<T> {
    fn from(items: &'a [T]) -> (r: FontSettings<T>)
        ensures
            r matches FontSettings::List(v) && v@ == items@,
    {
        FontSettings::List(copy_settings(items))
    }
}

/// Described by the `ensures` of `from` alone, as for a font stack.
impl<'a, T: Copy> vstd::std_specs::convert::FromSpecImpl<&'a [T]> for FontSettings<T> {
    open spec fn obeys_from_spec() -> bool {
        false
    }

    open spec fn from_spec(items: &'a [T]) -> FontSettings<T> {
        arbitrary()
    }
}

/// The visual weight of a font, as the bits of an IEEE 754 binary32 number
/// on the scale where 400 is normal and 700 bold.
#[derive(Copy, Clone, PartialEq, Eq, Hash, Debug, Structural)]
pub struct FontWeight(pub u32);

/// The bits of 400.0, the normal weight.
pub const NORMAL_WEIGHT_BITS: u32 = 0x43c8_0000;

impl Default for FontWeight {
    fn default() -> (r: FontWeight)
        ensures
            r == FontWeight(NORMAL_WEIGHT_BITS),
    {
        FontWeight(NORMAL_WEIGHT_BITS)
    }
}

/// The width of a font relative to its normal width, as the bits of an
/// IEEE 754 binary32 ratio.
#[derive(Copy, Clone, PartialEq, Eq, Hash, Debug, Structural)]
pub struct FontWidth(pub u32);

/// The bits of 1.0, the normal width.
pub const NORMAL_WIDTH_BITS: u32 = 0x3f80_0000;

impl Default for FontWidth {
    fn default() -> (r: FontWidth)
        ensures
            r == FontWidth(NORMAL_WIDTH_BITS),
    {
        FontWidth(NORMAL_WIDTH_BITS)
    }
}

/// The slant of a font.
#[derive(Copy, Clone, PartialEq, Eq, Hash, Debug, Structural)]
pub enum FontStyle {
    /// Upright.
    Normal,
    /// A cursive italic face.
    Italic,
    /// A slanted face, with an optional angle in degrees given as the bits of
    /// an IEEE 754 binary32 number.
    Oblique(Option<u32>),
}

impl Default for FontStyle {
    fn default() -> (r: FontStyle)
        ensures
            r == FontStyle::Normal,
    {
        FontStyle::Normal
    }
}

} // verus!
