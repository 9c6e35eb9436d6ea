//! Values that say what they bound.
use vstd::prelude::*;

verus! {

/// A minimum value.
///
/// Typically paired with and less than a [`Maximum`], such as with a [`Range`].
#[derive(Debug, Copy, Clone, Default, PartialEq, Eq, Hash, PartialOrd, Ord)]
pub struct Minimum<T>(pub T);

/// A nominal value.
///
/// Typically paired with and between a [`Minimum`] and [`Maximum`], such as with a [`Range`].
#[derive(Debug, Copy, Clone, Default, PartialEq, Eq, Hash, PartialOrd, Ord)]
pub struct Nominal<T>(pub T);

/// A maximum value.
///
/// Typically paired with and greater than a [`Minimum`], such as with a [`Range`].
#[derive(Debug, Copy, Clone, Default, PartialEq, Eq, Hash, PartialOrd, Ord)]
pub struct Maximum<T>(pub T);

/// A range of timing values with an inclusive minimum and maximum.
#[derive(Debug, Copy, Clone, Default, PartialEq, Eq, Hash)]
pub struct Range<T> {
    /// The lower, inclusive bound of the timing range.
    pub minimum: Minimum<T>,
    /// The nominal value within the timing range.
    pub nominal: Nominal<T>,
    /// The upper, inclusive bound of the timing range.
    pub maximum: Maximum<T>,
}

} // verus!
