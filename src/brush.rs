use vstd::prelude::*;

verus! {

/// The paint used for text and for its decorations.
///
/// Any type that can be compared, cloned and defaulted is a brush.
pub trait Brush: Clone + PartialEq + Default + core::fmt::Debug {

}

impl<T: Clone + PartialEq + Default + core::fmt::Debug> Brush for T {

}

} // verus!
