use vstd::prelude::*;

verus! {

/// A mapping of 2D `(x, y)` coordinates: optionally negate `x`, optionally
/// negate `y`, then optionally swap the two. The number of a mapping is
/// `negate_x + 2 * negate_y + 4 * swap`.
#[derive(Debug, Clone, Copy, PartialEq, Eq, Structural, PartialOrd, Ord, Hash)]
pub enum UvMap {
    PXPY,
    NXPY,
    PXNY,
    NXNY,
    PYPX,
    PYNX,
    NYPX,
    NYNX,
}

impl UvMap {
    /// The number of the mapping.
    pub open spec fn spec_as_u8(self) -> u8 {
        match self {
            UvMap::PXPY => 0,
            UvMap::NXPY => 1,
            UvMap::PXNY => 2,
            UvMap::NXNY => 3,
            UvMap::PYPX => 4,
            UvMap::PYNX => 5,
            UvMap::NYPX => 6,
            UvMap::NYNX => 7,
        }
    }

    /// Whether `x` is negated.
    pub open spec fn spec_negate_x(self) -> bool {
        self.spec_as_u8() % 2 == 1
    }

    /// Whether `y` is negated.
    pub open spec fn spec_negate_y(self) -> bool {
        (self.spec_as_u8() / 2) % 2 == 1
    }

    /// Whether the coordinates are swapped.
    pub open spec fn spec_swap(self) -> bool {
        self.spec_as_u8() / 4 == 1
    }

    /// Where the mapping sends the coordinates `(x, y)`.
    pub open spec fn map_coords(self, x: int, y: int) -> (int, int) {
        match self {
            UvMap::PXPY => (x, y),
            UvMap::NXPY => (-x, y),
            UvMap::PXNY => (x, -y),
            UvMap::NXNY => (-x, -y),
            UvMap::PYPX => (y, x),
            UvMap::PYNX => (y, -x),
            UvMap::NYPX => (-y, x),
            UvMap::NYNX => (-y, -x),
        }
    }

    /// The number of the mapping.
    pub fn as_u8(self) -> (r: u8)
        ensures
            r == self.spec_as_u8(),
    {
        match self {
            UvMap::PXPY => 0,
            UvMap::NXPY => 1,
            UvMap::PXNY => 2,
            UvMap::NXNY => 3,
            UvMap::PYPX => 4,
            UvMap::PYNX => 5,
            UvMap::NYPX => 6,
            UvMap::NYNX => 7,
        }
    }

    /// Whether `x` is negated.
    pub fn negate_x(self) -> (r: bool)
        ensures
            r == self.spec_negate_x(),
    {
        let v = self.as_u8();
        assert((v & 1 != 0) == (v % 2 == 1)) by (bit_vector);
        v & 1 != 0
    }

    /// Whether `y` is negated.
    pub fn negate_y(self) -> (r: bool)
        ensures
            r == self.spec_negate_y(),
    {
        let v = self.as_u8();
        assert(v < 8 ==> (v & 2 != 0) == ((v / 2) % 2 == 1)) by (bit_vector);
        v & 2 != 0
    }

    /// Whether the coordinates are swapped.
    pub fn swap(self) -> (r: bool)
        ensures
            r == self.spec_swap(),
    {
        let v = self.as_u8();
        assert(v < 8 ==> (v & 4 != 0) == (v / 4 == 1)) by (bit_vector);
        v & 4 != 0
    }

    /// Maps the `[x, y]` coordinates; each member of this family of
    /// functions maps `i8` coordinates.
    pub fn const_map_i8(self, xy: [i8; 2]) -> (r: [i8; 2])
        requires
            self.spec_negate_x() ==> xy[0] != i8::MIN,
            self.spec_negate_y() ==> xy[1] != i8::MIN,
        ensures
            r[0] == self.map_coords(xy[0] as int, xy[1] as int).0,
            r[1] == self.map_coords(xy[0] as int, xy[1] as int).1,
    {
        let x = xy[0];
        let y = xy[1];
        match self {
            UvMap::PXPY => [x, y],
            UvMap::NXPY => [-x, y],
            UvMap::PXNY => [x, -y],
            UvMap::NXNY => [-x, -y],
            UvMap::PYPX => [y, x],
            UvMap::PYNX => [y, -x],
            UvMap::NYPX => [-y, x],
            UvMap::NYNX => [-y, -x],
        }
    }

    /// Maps the `[x, y]` coordinates; each member of this family of
    /// functions maps `i8` coordinates.
    pub fn const_map_i16(self, xy: [i8; 2]) -> (r: [i8; 2])
        requires
            self.spec_negate_x() ==> xy[0] != i8::MIN,
            self.spec_negate_y() ==> xy[1] != i8::MIN,
        ensures
            r[0] == self.map_coords(xy[0] as int, xy[1] as int).0,
            r[1] == self.map_coords(xy[0] as int, xy[1] as int).1,
    {
        let x = xy[0];
        let y = xy[1];
        match self {
            UvMap::PXPY => [x, y],
            UvMap::NXPY => [-x, y],
            UvMap::PXNY => [x, -y],
            UvMap::NXNY => [-x, -y],
            UvMap::PYPX => [y, x],
            UvMap::PYNX => [y, -x],
            UvMap::NYPX => [-y, x],
            UvMap::NYNX => [-y, -x],
        }
    }

    /// Maps the `[x, y]` coordinates; each member of this family of
    /// functions maps `i8` coordinates.
    pub fn const_map_i32(self, xy: [i8; 2]) -> (r: [i8; 2])
        requires
            self.spec_negate_x() ==> xy[0] != i8::MIN,
            self.spec_negate_y() ==> xy[1] != i8::MIN,
        ensures
            r[0] == self.map_coords(xy[0] as int, xy[1] as int).0,
            r[1] == self.map_coords(xy[0] as int, xy[1] as int).1,
    {
        let x = xy[0];
        let y = xy[1];
        match self {
            UvMap::PXPY => [x, y],
            UvMap::NXPY => [-x, y],
            UvMap::PXNY => [x, -y],
            UvMap::NXNY => [-x, -y],
            UvMap::PYPX => [y, x],
            UvMap::PYNX => [y, -x],
            UvMap::NYPX => [-y, x],
            UvMap::NYNX => [-y, -x],
        }
    }

    /// Maps the `[x, y]` coordinates; each member of this family of
    /// functions maps `i8` coordinates.
    pub fn const_map_i64(self, xy: [i8; 2]) -> (r: [i8; 2])
        requires
            self.spec_negate_x() ==> xy[0] != i8::MIN,
            self.spec_negate_y() ==> xy[1] != i8::MIN,
        ensures
            r[0] == self.map_coords(xy[0] as int, xy[1] as int).0,
            r[1] == self.map_coords(xy[0] as int, xy[1] as int).1,
    {
        let x = xy[0];
        let y = xy[1];
        match self {
            UvMap::PXPY => [x, y],
            UvMap::NXPY => [-x, y],
            UvMap::PXNY => [x, -y],
            UvMap::NXNY => [-x, -y],
            UvMap::PYPX => [y, x],
            UvMap::PYNX => [y, -x],
            UvMap::NYPX => [-y, x],
            UvMap::NYNX => [-y, -x],
        }
    }

    /// Maps the `[x, y]` coordinates; each member of this family of
    /// functions maps `i8` coordinates.
    pub fn const_map_i128(self, xy: [i8; 2]) -> (r: [i8; 2])
        requires
            self.spec_negate_x() ==> xy[0] != i8::MIN,
            self.spec_negate_y() ==> xy[1] != i8::MIN,
        ensures
            r[0] == self.map_coords(xy[0] as int, xy[1] as int).0,
            r[1] == self.map_coords(xy[0] as int, xy[1] as int).1,
    {
        let x = xy[0];
        let y = xy[1];
        match self {
            UvMap::PXPY => [x, y],
            UvMap::NXPY => [-x, y],
            UvMap::PXNY => [x, -y],
            UvMap::NXNY => [-x, -y],
            UvMap::PYPX => [y, x],
            UvMap::PYNX => [y, -x],
            UvMap::NYPX => [-y, x],
            UvMap::NYNX => [-y, -x],
        }
    }

    /// Maps the `[x, y]` coordinates; each member of this family of
    /// functions maps `i8` coordinates.
    pub fn const_map_f32(self, xy: [i8; 2]) -> (r: [i8; 2])
        requires
            self.spec_negate_x() ==> xy[0] != i8::MIN,
            self.spec_negate_y() ==> xy[1] != i8::MIN,
        ensures
            r[0] == self.map_coords(xy[0] as int, xy[1] as int).0,
            r[1] == self.map_coords(xy[0] as int, xy[1] as int).1,
    {
        let x = xy[0];
        let y = xy[1];
        match self {
            UvMap::PXPY => [x, y],
            UvMap::NXPY => [-x, y],
            UvMap::PXNY => [x, -y],
            UvMap::NXNY => [-x, -y],
            UvMap::PYPX => [y, x],
            UvMap::PYNX => [y, -x],
            UvMap::NYPX => [-y, x],
            UvMap::NYNX => [-y, -x],
        }
    }

    /// Maps the `[x, y]` coordinates; each member of this family of
    /// functions maps `i8` coordinates.
    pub fn const_map_f64(self, xy: [i8; 2]) -> (r: [i8; 2])
        requires
            self.spec_negate_x() ==> xy[0] != i8::MIN,
            self.spec_negate_y() ==> xy[1] != i8::MIN,
        ensures
            r[0] == self.map_coords(xy[0] as int, xy[1] as int).0,
            r[1] == self.map_coords(xy[0] as int, xy[1] as int).1,
    {
        let x = xy[0];
        let y = xy[1];
        match self {
            UvMap::PXPY => [x, y],
            UvMap::NXPY => [-x, y],
            UvMap::PXNY => [x, -y],
            UvMap::NXNY => [-x, -y],
            UvMap::PYPX => [y, x],
            UvMap::PYNX => [y, -x],
            UvMap::NYPX => [-y, x],
            UvMap::NYNX => [-y, -x],
        }
    }
}

} // verus!

verus! {

/// A mapping negates `x` when [UvMap::negate_x] holds, negates `y` when
/// [UvMap::negate_y] holds, and then swaps the two when [UvMap::swap]
/// holds. In particular it is linear: negating both inputs negates both
/// outputs.
pub proof fn law_uv_map_coords(m: UvMap, x: int, y: int)
    ensures
        ({
            let a = if m.spec_negate_x() { -x } else { x };
            let b = if m.spec_negate_y() { -y } else { y };
            m.map_coords(x, y) == if m.spec_swap() { (b, a) } else { (a, b) }
        }),
        m.map_coords(-x, -y) == (-m.map_coords(x, y).0, -m.map_coords(x, y).1),
{
}

} // verus!
