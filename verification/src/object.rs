use vstd::prelude::*;

verus! {

/// The kind of three.js object a node of the scene graph is drawn as.
#[derive(Clone, Copy, Debug, PartialEq, Eq)]
pub enum ObjectType {
    Mesh,
    Points,
    LineSegments,
}

} // verus!
