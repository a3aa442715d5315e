//! Object shapes: the root shape from which every shape transition starts.

use vstd::prelude::*;

verus! {

/// An object shape: the root of the transition tree, or a shape reached from it by
/// transitions, held by the engine.
#[derive(Debug, Clone, Copy, PartialEq, Eq, Structural)]
pub enum Shape {
    /// The root shape, with no properties.
    Root,
    /// A shape reached by transitions.
    Derived { handle: u64 },
}

impl Shape {
    /// The root shape.
    pub fn root() -> (r: Shape)
        ensures
            r == Shape::Root,
    {
        Shape::Root
    }
}

/// A wrapper around a [`Shape`] that ensures it is the root shape.
#[derive(Debug, Clone, Copy)]
pub struct RootShape {
    shape: Shape,
}

impl RootShape {
    /// The wrapped shape is the root shape.
    #[verifier::type_invariant]
    spec fn is_root(self) -> bool {
        self.shape == Shape::Root
    }

    /// The wrapped shape.
    pub closed spec fn spec_shape(self) -> Shape {
        self.shape
    }

    /// Gets the inner [`Shape`]: always the root shape.
    pub fn shape(&self) -> (r: &Shape)
        ensures
            *r == self.spec_shape(),
            *r == Shape::Root,
    {
        proof {
            use_type_invariant(self);
        }
        &self.shape
    }
}

impl Default for RootShape {
    /// The root shape.
    fn default() -> (r: RootShape)
        ensures
            r.spec_shape() == Shape::Root,
    {
        RootShape { shape: Shape::root() }
    }
}

} // verus!
