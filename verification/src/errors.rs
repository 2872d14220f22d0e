use vstd::prelude::*;

verus! {

/// A fatal configuration error: the input selected something outside the
/// supported set, so no program text is produced at all.
#[derive(Clone, Copy, PartialEq, Eq, Structural, Debug)]
pub enum ConfigError {
    /// A directive line selected a lookup table that the generator does not
    /// materialize.
    UnsupportedDirective,
}

/// A memory-layout failure: the planned regions cannot hold what was
/// actually generated, or the plan itself does not fit the address space.
#[derive(Clone, Copy, PartialEq, Eq, Structural, Debug)]
pub enum LayoutError {
    /// The reserved code bound was exceeded, or an offset overflowed.
    LayoutOverflow,
}

} // verus!
