use vstd::prelude::*;

verus! {

/// One of the three coordinate axes.
#[derive(Debug, Clone, Copy, PartialEq, Eq, Structural, PartialOrd, Ord, Hash)]
pub enum Axis {
    X,
    Y,
    Z,
}

impl Axis {
    /// The number that stands for this axis: `X` is 0, `Y` is 1, `Z` is 2.
    pub open spec fn index(self) -> nat {
        match self {
            Axis::X => 0,
            Axis::Y => 1,
            Axis::Z => 2,
        }
    }

    /// Check `self` is equal to `other`.
    pub fn eq(self, other: Self) -> (r: bool)
        ensures
            r == (self == other),
    {
        self == other
    }

    /// Check `self` is not equal to `other`.
    pub fn ne(self, other: Self) -> (r: bool)
        ensures
            r == (self != other),
    {
        self != other
    }

    /// Two axes are orthogonal when they are different axes.
    pub fn is_orthogonal_to(self, axis: Self) -> (r: bool)
        ensures
            r == (self != axis),
    {
        self.ne(axis)
    }
}

/// A lookup table that holds one value for each [Axis].
#[derive(Debug, Clone, Copy)]
pub struct AxisTable<T: Copy = Axis>([T; 3]);

impl<T: Copy> AxisTable<T> {
    /// The value stored for `axis`.
    pub closed spec fn at(self, axis: Axis) -> T {
        self.0@[axis.index() as int]
    }

    /// Create a table whose value for each axis is `arr[axis.index()]`.
    pub fn new(arr: [T; 3]) -> (r: Self)
        ensures
            forall|axis: Axis| #[trigger] r.at(axis) == arr@[axis.index() as int],
    {
        AxisTable(arr)
    }

    /// The value stored for `axis`.
    pub fn get(&self, axis: Axis) -> (r: T)
        ensures
            r == self.at(axis),
    {
        let i: usize = match axis {
            Axis::X => 0,
            Axis::Y => 1,
            Axis::Z => 2,
        };
        self.0[i]
    }
}

} // verus!
