//! How strongly colors fade into each other.

use vstd::prelude::*;

verus! {

/// The color gradient that is applied to the interface.
#[derive(Clone, Copy, Debug, PartialEq, Eq, Hash, Structural)]
pub enum GradientType {
    /// Plain colors, no gradient.
    Plain,
    /// A mild gradient.
    Mild,
    /// A marked gradient.
    Wild,
}

impl Default for GradientType {
    fn default() -> (gradient: GradientType)
        ensures
            gradient == GradientType::Plain,
    {
        GradientType::Plain
    }
}

} // verus!
