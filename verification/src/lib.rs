//! Transform-and-hierarchy core of a 3D scene graph: spatial nodes that own a
//! local position/rotation/scale, cache derived transform matrices, and form a
//! tree of parent/child links that an external traversal pass walks to
//! propagate transforms from root to leaves.

pub mod math;
pub mod object3d;
