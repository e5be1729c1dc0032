//! Closed vector paths, as used for sticker outlines.

use vstd::prelude::*;

verus! {

/// A point on a Cartesian plane. Each coordinate is held as the bit pattern
/// of its 64-bit IEEE 754 value, so that it is carried through unchanged.
#[derive(Clone, Copy, Debug)]
pub struct Point {
    /// The point's first coordinate
    pub x_bits: u64,
    /// The point's second coordinate
    pub y_bits: u64,
}

/// Represents a vector path command.
#[derive(Clone, Copy, Debug)]
pub enum VectorPathCommand {
    /// No command chosen yet.
    _Default,
    /// A cubic Bezier curve to a given point
    CubicBezierCurve {
        /// The start control point of the curve
        start_control_point: Point,
        /// The end control point of the curve
        end_control_point: Point,
        /// The end point of the curve
        end_point: Point,
    },
    /// A straight line to a given point
    Line {
        /// The end point of the straight line
        end_point: Point,
    },
}

/// Represents a closed vector path. The path begins at the end point of the
/// last command.
#[derive(Debug)]
pub struct ClosedVectorPath {
    /// List of vector path commands
    pub commands: Vec<VectorPathCommand>,
}

impl View for ClosedVectorPath {
    type V = Seq<VectorPathCommand>;

    open spec fn view(&self) -> Seq<VectorPathCommand> {
        self.commands@
    }
}

impl ClosedVectorPath {
    /// The values of a sequence of paths, item by item.
    pub open spec fn views(s: Seq<ClosedVectorPath>) -> Seq<Seq<VectorPathCommand>> {
        Seq::new(s.len(), |i: int| s[i]@)
    }

    /// Copies a list of paths.
    pub fn clone_all(v: &Vec<ClosedVectorPath>) -> (r: Vec<ClosedVectorPath>)
        ensures
            Self::views(r@) == Self::views(v@),
    {
        let mut r: Vec<ClosedVectorPath> = Vec::new();
        let mut i: usize = 0;
        while i < v.len()
            invariant
                i <= v.len(),
                r@.len() == i,
                forall|j: int| 0 <= j < i ==> r@[j]@ == v@[j]@,
            decreases v.len() - i,
        {
            r.push(v[i].clone());
            i += 1;
        }
        assert(Self::views(r@) =~= Self::views(v@));
        r
    }
}

impl Default for ClosedVectorPath {
    fn default() -> (r: Self)
        ensures
            r@ == Seq::<VectorPathCommand>::empty(),
    {
        ClosedVectorPath { commands: Vec::new() }
    }
}

impl Clone for ClosedVectorPath {
    fn clone(&self) -> (r: Self)
        ensures
            r@ == self@,
    {
        let commands = self.commands.clone();
        assert(commands@ =~= self.commands@);
        ClosedVectorPath { commands }
    }
}

} // verus!
