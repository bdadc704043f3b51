use vstd::prelude::*;

use crate::axis::Axis;

verus! {

/// Represents a face of a cube.
///
/// The coordinate system of this crate has `+Y` up, `+X` right and
/// `-Z` forward, and angles increase counter-clockwise. The variants
/// are declared in the order of their numbers (see [Face::as_u8]):
/// Up, Forward, Left, Backward, Right, Down.
#[derive(Debug, Clone, Copy, PartialEq, Eq, Structural, PartialOrd, Ord, Hash)]
pub enum Face {
    /// The `+Y` face (Up).
    PosY,
    /// The `-Z` face (Forward).
    NegZ,
    /// The `-X` face (Left).
    NegX,
    /// The `+Z` face (Backward).
    PosZ,
    /// The `+X` face (Right).
    PosX,
    /// The `-Y` face (Down).
    NegY,
}

/// The angle direction indicates which direction angles increase in.
#[derive(Debug, Clone, Copy, PartialEq, Eq, Structural, Hash)]
pub enum AngleDirection {
    /// Counter-clockwise
    CCW,
    /// Clockwise
    CW,
}

impl Default for AngleDirection {
    fn default() -> (r: AngleDirection)
        ensures
            r == AngleDirection::CCW,
    {
        AngleDirection::CCW
    }
}

/// The number of quarter turns, from 0 to 3, that an `angle` stands for.
pub open spec fn quarter(angle: i8) -> int {
    (angle as int) % 4
}

/// Computes the number of quarter turns of `angle` (its low two bits).
pub fn quarter_index(angle: i8) -> (r: usize)
    ensures
        r == quarter(angle),
        r < 4,
{
    let shifted: u16 = (angle as i16 + 128) as u16;
    (shifted % 4) as usize
}

impl Face {
    // --- CONFIGURATION CONSTANTS ---
    /// The Up face within the coordinate system.
    pub const UP: Face = Face::PosY;

    /// The Right face within the coordinate system.
    pub const RIGHT: Face = Face::PosX;

    /// The Forward face within the coordinate system.
    pub const FORWARD: Face = Face::NegZ;

    /// The Down face within the coordinate system.
    pub const DOWN: Face = Face::NegY;

    /// The Left face within the coordinate system.
    pub const LEFT: Face = Face::NegX;

    /// The Backward face within the coordinate system.
    pub const BACKWARD: Face = Face::PosZ;

    /// The direction in which angles increase.
    pub const ANGLE_DIRECTION: AngleDirection = AngleDirection::CCW;

    // --- MODEL ---
    /// The number of the face.
    pub open spec fn spec_as_u8(self) -> u8 {
        match self {
            Face::PosY => 0,
            Face::NegZ => 1,
            Face::NegX => 2,
            Face::PosZ => 3,
            Face::PosX => 4,
            Face::NegY => 5,
        }
    }

    /// The face whose number is `n` (for `0 <= n < 6`).
    pub open spec fn from_code(n: int) -> Face {
        if n == 0 {
            Face::PosY
        } else if n == 1 {
            Face::NegZ
        } else if n == 2 {
            Face::NegX
        } else if n == 3 {
            Face::PosZ
        } else if n == 4 {
            Face::PosX
        } else {
            Face::NegY
        }
    }

    /// The axis that the face lies on.
    pub open spec fn spec_axis(self) -> Axis {
        match self {
            Face::NegX | Face::PosX => Axis::X,
            Face::NegY | Face::PosY => Axis::Y,
            Face::NegZ | Face::PosZ => Axis::Z,
        }
    }

    /// Whether the face points in the negative direction of its axis.
    pub open spec fn spec_is_negative(self) -> bool {
        match self {
            Face::NegX | Face::NegY | Face::NegZ => true,
            _ => false,
        }
    }

    /// The face on the same axis that points the other way.
    pub open spec fn spec_invert(self) -> Face {
        match self {
            Face::NegX => Face::PosX,
            Face::NegY => Face::PosY,
            Face::NegZ => Face::PosZ,
            Face::PosX => Face::NegX,
            Face::PosY => Face::NegY,
            Face::PosZ => Face::NegZ,
        }
    }

    /// The negative face on the axis of this face.
    pub open spec fn spec_as_negative(self) -> Face {
        if self.spec_is_negative() {
            self
        } else {
            self.spec_invert()
        }
    }

    /// The positive face on the axis of this face.
    pub open spec fn spec_as_positive(self) -> Face {
        if self.spec_is_negative() {
            self.spec_invert()
        } else {
            self
        }
    }

    /// The face that points upward on the 2D plane of this face.
    ///
    /// Up maps to Forward, Down to Backward, and each of the four
    /// side faces to Up.
    pub open spec fn spec_up(self) -> Face {
        match self {
            Face::PosY => Face::NegZ,
            Face::NegY => Face::PosZ,
            _ => Face::PosY,
        }
    }

    /// The face that points leftward on the 2D plane of this face.
    ///
    /// Up and Down map to Left, Left to Forward, Right to Backward,
    /// Forward to Right and Backward to Left.
    pub open spec fn spec_left(self) -> Face {
        match self {
            Face::PosY => Face::NegX,
            Face::NegY => Face::NegX,
            Face::NegX => Face::NegZ,
            Face::PosX => Face::PosZ,
            Face::NegZ => Face::PosX,
            Face::PosZ => Face::NegX,
        }
    }

    /// The face that points downward on the 2D plane of this face.
    pub open spec fn spec_down(self) -> Face {
        self.spec_up().spec_invert()
    }

    /// The face that points rightward on the 2D plane of this face.
    pub open spec fn spec_right(self) -> Face {
        self.spec_left().spec_invert()
    }

    /// The Up face of this face once the face is turned `k` quarter
    /// turns (counter-clockwise) about itself.
    pub open spec fn up_turned(self, k: int) -> Face {
        let q = k % 4;
        if q == 0 {
            self.spec_up()
        } else if q == 1 {
            self.spec_left()
        } else if q == 2 {
            self.spec_down()
        } else {
            self.spec_right()
        }
    }

    /// The Left face of this face after `k` quarter turns.
    pub open spec fn left_turned(self, k: int) -> Face {
        self.up_turned(k + 1)
    }

    /// The Down face of this face after `k` quarter turns.
    pub open spec fn down_turned(self, k: int) -> Face {
        self.up_turned(k + 2)
    }

    /// The Right face of this face after `k` quarter turns.
    pub open spec fn right_turned(self, k: int) -> Face {
        self.up_turned(k + 3)
    }

    /// The Up face of this face, turned by `angle` (its low two bits).
    pub open spec fn spec_up_at_angle(self, angle: i8) -> Face {
        self.up_turned(quarter(angle))
    }

    /// The Left face of this face, turned by `angle` (its low two bits).
    pub open spec fn spec_left_at_angle(self, angle: i8) -> Face {
        self.left_turned(quarter(angle))
    }

    /// The Down face of this face, turned by `angle` (its low two bits).
    pub open spec fn spec_down_at_angle(self, angle: i8) -> Face {
        self.down_turned(quarter(angle))
    }

    /// The Right face of this face, turned by `angle` (its low two bits).
    pub open spec fn spec_right_at_angle(self, angle: i8) -> Face {
        self.right_turned(quarter(angle))
    }

    /// The face with its `axis` inverted (others are unchanged).
    pub open spec fn invert_on_axis(self, axis: Axis) -> Face {
        if self.spec_axis() == axis {
            self.spec_invert()
        } else {
            self
        }
    }

    /// Swaps the faces `a` and `b`, leaving other faces unchanged.
    pub open spec fn swap_pair(self, a: Face, b: Face) -> Face {
        if self == a {
            b
        } else if self == b {
            a
        } else {
            self
        }
    }

    /// The integer coordinates of the face normal.
    pub open spec fn coord(self) -> (int, int, int) {
        match self {
            Face::NegX => (-1, 0, 0),
            Face::NegY => (0, -1, 0),
            Face::NegZ => (0, 0, -1),
            Face::PosX => (1, 0, 0),
            Face::PosY => (0, 1, 0),
            Face::PosZ => (0, 0, 1),
        }
    }

    /// The position of the face in lexicographic order:
    /// `NegX, NegY, NegZ, PosX, PosY, PosZ`.
    pub open spec fn lex_face(i: int) -> Face {
        if i == 0 {
            Face::NegX
        } else if i == 1 {
            Face::NegY
        } else if i == 2 {
            Face::NegZ
        } else if i == 3 {
            Face::PosX
        } else if i == 4 {
            Face::PosY
        } else {
            Face::PosZ
        }
    }

    // --- CONSTRUCTORS ---
    /// Create a [Face] from a raw [u8] value that is known to be a valid
    /// face number (`value < 6`).
    pub fn from_u8_unchecked(value: u8) -> (r: Self)
        requires
            value < 6,
        ensures
            r.spec_as_u8() == value,
            r == Face::from_code(value as int),
    {
        match value {
            0 => Face::PosY,
            1 => Face::NegZ,
            2 => Face::NegX,
            3 => Face::PosZ,
            4 => Face::PosX,
            _ => Face::NegY,
        }
    }

    /// Attempt to create a [Face] from a raw [u8] value.
    ///
    /// If [Face] can not be represented with that value, returns [None].
    pub fn from_u8(value: u8) -> (r: Option<Self>)
        ensures
            value < 6 ==> r == Some(Face::from_code(value as int)),
            value < 6 ==> r->0.spec_as_u8() == value,
            value >= 6 ==> r is None,
    {
        if value > 5 {
            return None;
        }
        Some(Self::from_u8_unchecked(value))
    }

    // --- ACCESSORS ---
    /// Return the [u8] number of the face.
    #[verifier::when_used_as_spec(spec_as_u8)]
    pub fn as_u8(self) -> (r: u8)
        ensures
            r == self.spec_as_u8(),
            r < 6,
    {
        match self {
            Face::PosY => 0,
            Face::NegZ => 1,
            Face::NegX => 2,
            Face::PosZ => 3,
            Face::PosX => 4,
            Face::NegY => 5,
        }
    }

    /// Returns the [Axis] of this [Face].
    #[verifier::when_used_as_spec(spec_axis)]
    pub fn axis(self) -> (r: Axis)
        ensures
            r == self.spec_axis(),
    {
        let table = axial_face_table(Axis::X, Axis::Y, Axis::Z, Axis::X, Axis::Y, Axis::Z);
        proof {
            Face::lemma_table_cases(self);
        }
        table.get(self)
    }

    /// Check if the [Face] is a negative face.
    #[verifier::when_used_as_spec(spec_is_negative)]
    pub fn is_negative(self) -> (r: bool)
        ensures
            r == self.spec_is_negative(),
    {
        let table = axial_face_bits_table(true, true, true, false, false, false);
        proof {
            Face::lemma_table_cases(self);
        }
        table.get(self)
    }

    /// Check if the [Face] is a positive face.
    pub fn is_positive(self) -> (r: bool)
        ensures
            r == !self.spec_is_negative(),
    {
        let table = axial_face_bits_table(false, false, false, true, true, true);
        proof {
            Face::lemma_table_cases(self);
        }
        table.get(self)
    }

    /// Return the negative variant of this [Face].
    #[verifier::when_used_as_spec(spec_as_negative)]
    pub fn as_negative(self) -> (r: Self)
        ensures
            r == self.spec_as_negative(),
    {
        let table = axial_face_table(
            Face::NegX,
            Face::NegY,
            Face::NegZ,
            Face::NegX,
            Face::NegY,
            Face::NegZ,
        );
        proof {
            Face::lemma_table_cases(self);
        }
        table.get(self)
    }

    /// Returns the positive variant of this [Face].
    #[verifier::when_used_as_spec(spec_as_positive)]
    pub fn as_positive(self) -> (r: Self)
        ensures
            r == self.spec_as_positive(),
    {
        let table = axial_face_table(
            Face::PosX,
            Face::PosY,
            Face::PosZ,
            Face::PosX,
            Face::PosY,
            Face::PosZ,
        );
        proof {
            Face::lemma_table_cases(self);
        }
        table.get(self)
    }

    /// Returns the variant of this [Face] with the same sign as `sign`
    /// (the face itself when `sign` is zero).
    pub fn with_sign(self, sign: i32) -> (r: Self)
        ensures
            sign == 0 ==> r == self,
            sign > 0 ==> r == self.spec_as_positive(),
            sign < 0 ==> r == self.spec_as_negative(),
    {
        if sign == 0 {
            self
        } else if sign > 0 {
            self.as_positive()
        } else {
            self.as_negative()
        }
    }

    /// Lets the prover split a goal about `f` into the six faces.
    proof fn lemma_table_cases(f: Face)
        ensures
            f == Face::NegX || f == Face::NegY || f == Face::NegZ || f == Face::PosX || f
                == Face::PosY || f == Face::PosZ,
    {
    }

    // --- QUERY FUNCTIONS ---
    /// Determines the `Up` face for the given face.
    fn calc_face_up(face: Face) -> (r: Face)
        ensures
            r == face.spec_up(),
    {
        match face {
            Face::PosY => Face::FORWARD,
            Face::NegX => Face::UP,
            Face::PosX => Face::UP,
            Face::NegZ => Face::UP,
            Face::PosZ => Face::UP,
            Face::NegY => Face::BACKWARD,
        }
    }

    /// Determines the `Left` face for the given face.
    fn calc_face_left(face: Face) -> (r: Face)
        ensures
            r == face.spec_left(),
    {
        match face {
            Face::PosY => Face::LEFT,
            Face::NegY => Face::LEFT,
            Face::NegX => Face::FORWARD,
            Face::PosX => Face::BACKWARD,
            Face::NegZ => Face::RIGHT,
            Face::PosZ => Face::LEFT,
        }
    }

    /// Determines which direction points upward relative to each face.
    fn up_face_table() -> (r: FaceTable<Face>)
        ensures
            forall|f: Face| #[trigger] r.at(f) == f.spec_up(),
    {
        let r = axial_face_table(
            Face::calc_face_up(Face::NegX),
            Face::calc_face_up(Face::NegY),
            Face::calc_face_up(Face::NegZ),
            Face::calc_face_up(Face::PosX),
            Face::calc_face_up(Face::PosY),
            Face::calc_face_up(Face::PosZ),
        );
        assert forall|f: Face| #[trigger] r.at(f) == f.spec_up() by {
            Face::lemma_table_cases(f);
        }
        r
    }

    /// Determines which direction points leftward relative to each face.
    fn left_face_table() -> (r: FaceTable<Face>)
        ensures
            forall|f: Face| #[trigger] r.at(f) == f.spec_left(),
    {
        let r = axial_face_table(
            Face::calc_face_left(Face::NegX),
            Face::calc_face_left(Face::NegY),
            Face::calc_face_left(Face::NegZ),
            Face::calc_face_left(Face::PosX),
            Face::calc_face_left(Face::PosY),
            Face::calc_face_left(Face::PosZ),
        );
        assert forall|f: Face| #[trigger] r.at(f) == f.spec_left() by {
            Face::lemma_table_cases(f);
        }
        r
    }

    /// Determines which direction points downward relative to each face.
    fn down_face_table() -> (r: FaceTable<Face>)
        ensures
            forall|f: Face| #[trigger] r.at(f) == f.spec_down(),
    {
        Face::up_face_table().invert()
    }

    /// Determines which direction points rightward relative to each face.
    fn right_face_table() -> (r: FaceTable<Face>)
        ensures
            forall|f: Face| #[trigger] r.at(f) == f.spec_right(),
    {
        Face::left_face_table().invert()
    }

    /// Returns the Up [Face] of the given [Face].
    ///
    /// The Up [Face] is the face that points upward on the
    /// 2D face plane.
    #[verifier::when_used_as_spec(spec_up)]
    pub fn up(self) -> (r: Self)
        ensures
            r == self.spec_up(),
    {
        Face::up_face_table().get(self)
    }

    /// Returns the Left [Face] of the given [Face].
    #[verifier::when_used_as_spec(spec_left)]
    pub fn left(self) -> (r: Self)
        ensures
            r == self.spec_left(),
    {
        Face::left_face_table().get(self)
    }

    /// Returns the Down [Face] of the given [Face].
    #[verifier::when_used_as_spec(spec_down)]
    pub fn down(self) -> (r: Self)
        ensures
            r == self.spec_down(),
    {
        Face::down_face_table().get(self)
    }

    /// Returns the Right [Face] of the given [Face].
    #[verifier::when_used_as_spec(spec_right)]
    pub fn right(self) -> (r: Self)
        ensures
            r == self.spec_right(),
    {
        Face::right_face_table().get(self)
    }

    /// Returns the Up [Face] of the given [Face] when that face
    /// has been rotated at the given `angle`.
    #[verifier::when_used_as_spec(spec_up_at_angle)]
    pub fn up_at_angle(self, angle: i8) -> (r: Self)
        ensures
            r == self.spec_up_at_angle(angle),
    {
        let tables = face_at_angle(
            Face::up_face_table(),
            Face::left_face_table(),
            Face::down_face_table(),
            Face::right_face_table(),
        );
        tables[quarter_index(angle)].get(self)
    }

    /// Returns the Left [Face] of the given [Face] when that face
    /// has been rotated at the given `angle`.
    #[verifier::when_used_as_spec(spec_left_at_angle)]
    pub fn left_at_angle(self, angle: i8) -> (r: Self)
        ensures
            r == self.spec_left_at_angle(angle),
    {
        let tables = face_at_angle(
            Face::left_face_table(),
            Face::down_face_table(),
            Face::right_face_table(),
            Face::up_face_table(),
        );
        tables[quarter_index(angle)].get(self)
    }

    /// Returns the Down [Face] of the given [Face] when that face
    /// has been rotated at the given `angle`.
    #[verifier::when_used_as_spec(spec_down_at_angle)]
    pub fn down_at_angle(self, angle: i8) -> (r: Self)
        ensures
            r == self.spec_down_at_angle(angle),
    {
        let tables = face_at_angle(
            Face::down_face_table(),
            Face::right_face_table(),
            Face::up_face_table(),
            Face::left_face_table(),
        );
        tables[quarter_index(angle)].get(self)
    }

    /// Returns the Right [Face] of the given [Face] when that face
    /// has been rotated at the given `angle`.
    #[verifier::when_used_as_spec(spec_right_at_angle)]
    pub fn right_at_angle(self, angle: i8) -> (r: Self)
        ensures
            r == self.spec_right_at_angle(angle),
    {
        let tables = face_at_angle(
            Face::right_face_table(),
            Face::up_face_table(),
            Face::left_face_table(),
            Face::down_face_table(),
        );
        tables[quarter_index(angle)].get(self)
    }

    /// Invert the [Face].
    #[verifier::when_used_as_spec(spec_invert)]
    pub fn invert(self) -> (r: Self)
        ensures
            r == self.spec_invert(),
    {
        Face::invert_table().get(self)
    }

    /// Invert the [Face] if the given `condition` is met.
    pub fn invert_if(self, condition: bool) -> (r: Self)
        ensures
            r == (if condition { self.spec_invert() } else { self }),
    {
        let tables = [Face::identity_table(), Face::invert_table()];
        let i: usize = if condition { 1 } else { 0 };
        tables[i].get(self)
    }

    /// The table that maps each face to itself.
    fn identity_table() -> (r: FaceTable<Face>)
        ensures
            forall|f: Face| #[trigger] r.at(f) == f,
    {
        let r = axial_face_table(
            Face::NegX,
            Face::NegY,
            Face::NegZ,
            Face::PosX,
            Face::PosY,
            Face::PosZ,
        );
        assert forall|f: Face| #[trigger] r.at(f) == f by {
            Face::lemma_table_cases(f);
        }
        r
    }

    /// The table that inverts the faces on the given axis.
    fn invert_axes_table(x: bool, y: bool, z: bool) -> (r: FaceTable<Face>)
        ensures
            forall|f: Face| #[trigger]
                r.at(f) == (if (f.spec_axis() == Axis::X && x) || (f.spec_axis() == Axis::Y && y)
                    || (f.spec_axis() == Axis::Z && z) {
                    f.spec_invert()
                } else {
                    f
                }),
    {
        let r = axial_face_table(
            if x { Face::PosX } else { Face::NegX },
            if y { Face::PosY } else { Face::NegY },
            if z { Face::PosZ } else { Face::NegZ },
            if x { Face::NegX } else { Face::PosX },
            if y { Face::NegY } else { Face::PosY },
            if z { Face::NegZ } else { Face::PosZ },
        );
        assert forall|f: Face| #[trigger]
            r.at(f) == (if (f.spec_axis() == Axis::X && x) || (f.spec_axis() == Axis::Y && y) || (
            f.spec_axis() == Axis::Z && z) {
                f.spec_invert()
            } else {
                f
            }) by {
            Face::lemma_table_cases(f);
        }
        r
    }

    /// Invert the `X` axis.
    pub fn invert_x(self) -> (r: Self)
        ensures
            r == self.invert_on_axis(Axis::X),
    {
        Face::invert_axes_table(true, false, false).get(self)
    }

    /// Invert the `Y` axis.
    pub fn invert_y(self) -> (r: Self)
        ensures
            r == self.invert_on_axis(Axis::Y),
    {
        Face::invert_axes_table(false, true, false).get(self)
    }

    /// Invert the `Z` axis.
    pub fn invert_z(self) -> (r: Self)
        ensures
            r == self.invert_on_axis(Axis::Z),
    {
        Face::invert_axes_table(false, false, true).get(self)
    }

    /// Invert the `X` and `Y` axes.
    pub fn invert_xy(self) -> (r: Self)
        ensures
            r == (if self.spec_axis() == Axis::Z { self } else { self.spec_invert() }),
    {
        Face::invert_axes_table(true, true, false).get(self)
    }

    /// Invert the `X` and `Z` axes.
    pub fn invert_xz(self) -> (r: Self)
        ensures
            r == (if self.spec_axis() == Axis::Y { self } else { self.spec_invert() }),
    {
        Face::invert_axes_table(true, false, true).get(self)
    }

    /// Invert the `Y` and `Z` axes.
    pub fn invert_yz(self) -> (r: Self)
        ensures
            r == (if self.spec_axis() == Axis::X { self } else { self.spec_invert() }),
    {
        Face::invert_axes_table(false, true, true).get(self)
    }

    /// The table that swaps `a` and `b` and keeps every other face.
    fn swap_table(a: Face, b: Face) -> (r: FaceTable<Face>)
        ensures
            forall|f: Face| #[trigger] r.at(f) == f.swap_pair(a, b),
    {
        let r = axial_face_table(
            Face::swap_face(Face::NegX, a, b),
            Face::swap_face(Face::NegY, a, b),
            Face::swap_face(Face::NegZ, a, b),
            Face::swap_face(Face::PosX, a, b),
            Face::swap_face(Face::PosY, a, b),
            Face::swap_face(Face::PosZ, a, b),
        );
        assert forall|f: Face| #[trigger] r.at(f) == f.swap_pair(a, b) by {
            Face::lemma_table_cases(f);
        }
        r
    }

    /// Swaps the faces `a` and `b`.
    fn swap_face(face: Face, a: Face, b: Face) -> (r: Face)
        ensures
            r == face.swap_pair(a, b),
    {
        if face == a {
            b
        } else if face == b {
            a
        } else {
            face
        }
    }

    /// Invert the vertical axis. ([Face::UP] <-> [Face::DOWN])
    pub fn invert_vertical(self) -> (r: Self)
        ensures
            r == self.swap_pair(Face::UP, Face::DOWN),
    {
        Face::swap_table(Face::UP, Face::DOWN).get(self)
    }

    /// Invert the vertical axis if `condition` is met.
    pub fn invert_vertical_if(self, condition: bool) -> (r: Face)
        ensures
            r == (if condition { self.swap_pair(Face::UP, Face::DOWN) } else { self }),
    {
        let table = if condition {
            cardinal_face_table(
                Face::DOWN,
                Face::FORWARD,
                Face::LEFT,
                Face::BACKWARD,
                Face::RIGHT,
                Face::UP,
            )
        } else {
            cardinal_face_table(
                Face::UP,
                Face::FORWARD,
                Face::LEFT,
                Face::BACKWARD,
                Face::RIGHT,
                Face::DOWN,
            )
        };
        proof {
            Face::lemma_table_cases(self);
        }
        table.get(self)
    }

    /// Invert the left/right axis.
    pub fn invert_left_right(self) -> (r: Self)
        ensures
            r == self.swap_pair(Face::LEFT, Face::RIGHT),
    {
        Face::swap_table(Face::LEFT, Face::RIGHT).get(self)
    }

    /// Invert the left/right axis if `condition` is met.
    pub fn invert_left_right_if(self, condition: bool) -> (r: Face)
        ensures
            r == (if condition { self.swap_pair(Face::LEFT, Face::RIGHT) } else { self }),
    {
        let table = if condition {
            cardinal_face_table(
                Face::UP,
                Face::FORWARD,
                Face::RIGHT,
                Face::BACKWARD,
                Face::LEFT,
                Face::DOWN,
            )
        } else {
            cardinal_face_table(
                Face::UP,
                Face::FORWARD,
                Face::LEFT,
                Face::BACKWARD,
                Face::RIGHT,
                Face::DOWN,
            )
        };
        proof {
            Face::lemma_table_cases(self);
        }
        table.get(self)
    }

    /// Invert the front/back axis.
    pub fn invert_front_back(self) -> (r: Self)
        ensures
            r == self.swap_pair(Face::FORWARD, Face::BACKWARD),
    {
        Face::swap_table(Face::FORWARD, Face::BACKWARD).get(self)
    }

    /// Invert the front/back axis if `condition` is met.
    pub fn invert_front_back_if(self, condition: bool) -> (r: Self)
        ensures
            r == (if condition { self.swap_pair(Face::FORWARD, Face::BACKWARD) } else { self }),
    {
        let table = if condition {
            cardinal_face_table(
                Face::UP,
                Face::BACKWARD,
                Face::LEFT,
                Face::FORWARD,
                Face::RIGHT,
                Face::DOWN,
            )
        } else {
            cardinal_face_table(
                Face::UP,
                Face::FORWARD,
                Face::LEFT,
                Face::BACKWARD,
                Face::RIGHT,
                Face::DOWN,
            )
        };
        proof {
            Face::lemma_table_cases(self);
        }
        table.get(self)
    }

    // --- MISCELLANEOUS ---
    /// Iterate faces in the order of their numbers.
    pub fn iter() -> (r: FaceIter)
        ensures
            r.position() == 0,
    {
        FaceIter::new()
    }

    /// Iterate faces in lexicographic order.
    pub fn lexicographic_iter() -> (r: LexFaceIter)
        ensures
            r.position() == 0,
    {
        LexFaceIter::new()
    }

    /// Check `self` is equal to `other`.
    pub fn eq(self, other: Self) -> (r: bool)
        ensures
            r == (self == other),
    {
        self.as_u8() == other.as_u8()
    }

    /// Check if `self` is not equal to `other`.
    pub fn ne(self, other: Self) -> (r: bool)
        ensures
            r == (self != other),
    {
        self.as_u8() != other.as_u8()
    }

    /// The [i8] coordinate of this [Face].
    pub fn to_coord_i8(self) -> (r: [i8; 3])
        ensures
            r@ == seq![self.coord().0 as i8, self.coord().1 as i8, self.coord().2 as i8],
    {
        match self {
            Face::NegX => [-1, 0, 0],
            Face::NegY => [0, -1, 0],
            Face::NegZ => [0, 0, -1],
            Face::PosX => [1, 0, 0],
            Face::PosY => [0, 1, 0],
            Face::PosZ => [0, 0, 1],
        }
    }

    /// The [i16] coordinate of this [Face].
    pub fn to_coord_i16(self) -> (r: [i16; 3])
        ensures
            r@ == seq![self.coord().0 as i16, self.coord().1 as i16, self.coord().2 as i16],
    {
        match self {
            Face::NegX => [-1, 0, 0],
            Face::NegY => [0, -1, 0],
            Face::NegZ => [0, 0, -1],
            Face::PosX => [1, 0, 0],
            Face::PosY => [0, 1, 0],
            Face::PosZ => [0, 0, 1],
        }
    }

    /// The [i32] coordinate of this [Face].
    pub fn to_coord_i32(self) -> (r: [i32; 3])
        ensures
            r@ == seq![self.coord().0 as i32, self.coord().1 as i32, self.coord().2 as i32],
    {
        match self {
            Face::NegX => [-1, 0, 0],
            Face::NegY => [0, -1, 0],
            Face::NegZ => [0, 0, -1],
            Face::PosX => [1, 0, 0],
            Face::PosY => [0, 1, 0],
            Face::PosZ => [0, 0, 1],
        }
    }

    /// The [i64] coordinate of this [Face].
    pub fn to_coord_i64(self) -> (r: [i64; 3])
        ensures
            r@ == seq![self.coord().0 as i64, self.coord().1 as i64, self.coord().2 as i64],
    {
        match self {
            Face::NegX => [-1, 0, 0],
            Face::NegY => [0, -1, 0],
            Face::NegZ => [0, 0, -1],
            Face::PosX => [1, 0, 0],
            Face::PosY => [0, 1, 0],
            Face::PosZ => [0, 0, 1],
        }
    }

    /// Check if `self` is orthogonal to `other`.
    ///
    /// A face is considered orthogonal to another one when it is
    /// on a different axis.
    pub fn is_orthogonal_to(self, other: Face) -> (r: bool)
        ensures
            r == (self.spec_axis() != other.spec_axis()),
    {
        self.axis().is_orthogonal_to(other.axis())
    }

    fn invert_table() -> (r: FaceTable<Face>)
        ensures
            forall|f: Face| #[trigger] r.at(f) == f.spec_invert(),
    {
        let r = axial_face_table(
            Face::PosX,
            Face::PosY,
            Face::PosZ,
            Face::NegX,
            Face::NegY,
            Face::NegZ,
        );
        assert forall|f: Face| #[trigger] r.at(f) == f.spec_invert() by {
            match f {
                Face::PosY => {},
                Face::NegZ => {},
                Face::NegX => {},
                Face::PosZ => {},
                Face::PosX => {},
                Face::NegY => {},
            }
        }
        r
    }
}

/// Orders the four direction tables by angle: the table at index `k`
/// gives the direction for `k` quarter turns in [Face::ANGLE_DIRECTION].
fn face_at_angle(
    up: FaceTable<Face>,
    left: FaceTable<Face>,
    down: FaceTable<Face>,
    right: FaceTable<Face>,
) -> (r: [FaceTable<Face>; 4])
    ensures
        r@ == seq![up, left, down, right],
{
    match Face::ANGLE_DIRECTION {
        AngleDirection::CCW => [up, left, down, right],
        AngleDirection::CW => [up, right, down, left],
    }
}

// --- TABLES ---
/// A lookup table for values associated with each [Face], indexed by
/// [Face::as_u8].
#[derive(Clone, Copy)]
pub struct FaceTable<T: Copy = Face>(pub [T; 6]);

impl<T: Copy> FaceTable<T> {
    /// The value stored for `face`.
    pub open spec fn at(self, face: Face) -> T {
        self.0@[face.spec_as_u8() as int]
    }

    /// Create a new [FaceTable] from the given `array`.
    pub fn new(array: [T; 6]) -> (r: Self)
        ensures
            r.0 == array,
    {
        FaceTable(array)
    }

    /// Get the value stored for the given `face`.
    pub fn get(&self, face: Face) -> (r: T)
        ensures
            r == self.at(face),
    {
        self.0[face.as_u8() as usize]
    }

    /// Set the `value` for the given `face`.
    pub fn set(&mut self, face: Face, value: T)
        ensures
            final(self).0@ == old(self).0@.update(face.spec_as_u8() as int, value),
    {
        self.0[face.as_u8() as usize] = value;
    }
}

impl FaceTable<Face> {
    /// Return a new table based on this one but with each of the
    /// faces inverted.
    pub fn invert(self) -> (r: Self)
        ensures
            forall|f: Face| #[trigger] r.at(f) == self.at(f).spec_invert(),
    {
        let r = FaceTable(
            [
                self.0[0].invert(),
                self.0[1].invert(),
                self.0[2].invert(),
                self.0[3].invert(),
                self.0[4].invert(),
                self.0[5].invert(),
            ],
        );
        assert forall|f: Face| #[trigger] r.at(f) == self.at(f).spec_invert() by {
            match f {
                Face::PosY => {},
                Face::NegZ => {},
                Face::NegX => {},
                Face::PosZ => {},
                Face::PosX => {},
                Face::NegY => {},
            }
        }
        r
    }
}

/// A [Face] bitmask table.
#[derive(Debug, Clone, Copy, PartialEq, Eq, Structural, PartialOrd, Ord, Hash)]
pub struct FaceBitsTable(u8);

pub proof fn lemma_u8_bit_set(x: u8, k: u8, j: u8)
    requires
        k < 8,
        j < 8,
    ensures
        ((x | (1u8 << k)) >> j) & 1 == (if j == k { 1u8 } else { (x >> j) & 1 }),
        ((x & !(1u8 << k)) >> j) & 1 == (if j == k { 0u8 } else { (x >> j) & 1 }),
        (x & (1u8 << k) != 0) == ((x >> k) & 1 == 1),
{
    assert(((x | (1u8 << k)) >> j) & 1 == (if j == k { 1u8 } else { (x >> j) & 1 })) by (bit_vector)
        requires
            k < 8,
            j < 8,
    ;
    assert(((x & !(1u8 << k)) >> j) & 1 == (if j == k { 0u8 } else { (x >> j) & 1 }))
        by (bit_vector)
        requires
            k < 8,
            j < 8,
    ;
    assert((x & (1u8 << k) != 0) == ((x >> k) & 1 == 1)) by (bit_vector)
        requires
            k < 8,
    ;
}

impl FaceBitsTable {
    /// Whether the bit for `face` is set.
    pub closed spec fn has(self, face: Face) -> bool {
        (self.0 >> face.spec_as_u8()) & 1 == 1
    }

    /// A table with no bit set.
    pub(crate) fn empty() -> (r: Self)
        ensures
            forall|f: Face| !#[trigger] r.has(f),
    {
        let r = FaceBitsTable(0u8);
        assert forall|f: Face| !#[trigger] r.has(f) by {
            let k = f.spec_as_u8();
            assert((0u8 >> k) & 1 == 0) by (bit_vector);
        }
        r
    }

    /// Get the bit value for the given `face`.
    pub fn get(self, face: Face) -> (r: bool)
        ensures
            r == self.has(face),
    {
        let k = face.as_u8();
        proof {
            lemma_u8_bit_set(self.0, k, k);
        }
        self.0 & (1u8 << k) != 0
    }

    /// Set the bit `value` for the given `face`.
    pub fn set(&mut self, face: Face, value: bool)
        ensures
            forall|f: Face| #[trigger]
                final(self).has(f) == (if f == face { value } else { old(self).has(f) }),
    {
        let k = face.as_u8();
        let x = self.0;
        if value {
            self.0 = x | (1u8 << k);
        } else {
            self.0 = x & !(1u8 << k);
        }
        proof {
            assert forall|f: Face| #[trigger]
                self.has(f) == (if f == face { value } else { old(self).has(f) }) by {
                lemma_u8_bit_set(x, k, f.spec_as_u8());
            }
        }
    }
}

/// Construct a [FaceBitsTable] from the given axial direction values.
pub fn axial_face_bits_table(
    neg_x: bool,
    neg_y: bool,
    neg_z: bool,
    pos_x: bool,
    pos_y: bool,
    pos_z: bool,
) -> (r: FaceBitsTable)
    ensures
        r.has(Face::NegX) == neg_x,
        r.has(Face::NegY) == neg_y,
        r.has(Face::NegZ) == neg_z,
        r.has(Face::PosX) == pos_x,
        r.has(Face::PosY) == pos_y,
        r.has(Face::PosZ) == pos_z,
{
    let mut bits = FaceBitsTable::empty();
    bits.set(Face::NegX, neg_x);
    bits.set(Face::NegY, neg_y);
    bits.set(Face::NegZ, neg_z);
    bits.set(Face::PosX, pos_x);
    bits.set(Face::PosY, pos_y);
    bits.set(Face::PosZ, pos_z);
    bits
}

/// Create a new [FaceTable] from the given cardinal values.
pub fn cardinal_face_table<T: Copy>(up: T, forward: T, left: T, backward: T, right: T, down: T) -> (r:
    FaceTable<T>)
    ensures
        r.at(Face::UP) == up,
        r.at(Face::FORWARD) == forward,
        r.at(Face::LEFT) == left,
        r.at(Face::BACKWARD) == backward,
        r.at(Face::RIGHT) == right,
        r.at(Face::DOWN) == down,
{
    let mut table = FaceTable([up;6]);
    table.set(Face::UP, up);
    table.set(Face::FORWARD, forward);
    table.set(Face::LEFT, left);
    table.set(Face::BACKWARD, backward);
    table.set(Face::RIGHT, right);
    table.set(Face::DOWN, down);
    table
}

/// Create a new [FaceTable] from the given axial values.
pub fn axial_face_table<T: Copy>(neg_x: T, neg_y: T, neg_z: T, pos_x: T, pos_y: T, pos_z: T) -> (r:
    FaceTable<T>)
    ensures
        r.at(Face::NegX) == neg_x,
        r.at(Face::NegY) == neg_y,
        r.at(Face::NegZ) == neg_z,
        r.at(Face::PosX) == pos_x,
        r.at(Face::PosY) == pos_y,
        r.at(Face::PosZ) == pos_z,
{
    let mut table = FaceTable([neg_x;6]);
    table.set(Face::NegX, neg_x);
    table.set(Face::NegY, neg_y);
    table.set(Face::NegZ, neg_z);
    table.set(Face::PosX, pos_x);
    table.set(Face::PosY, pos_y);
    table.set(Face::PosZ, pos_z);
    table
}

} // verus!

verus! {

impl Default for FaceIter {
    fn default() -> (r: FaceIter)
        ensures
            r.position() == 0,
    {
        FaceIter::new()
    }
}

impl Default for Face {
    fn default() -> (r: Face)
        ensures
            r == Face::UP,
    {
        Face::UP
    }
}

/// An iterator of each [Face] in the order of their numbers.
#[derive(Debug, Clone, Hash)]
pub struct FaceIter {
    pub(crate) face: u8,
}

impl FaceIter {
    /// How many faces the iterator has passed.
    pub closed spec fn position(self) -> int {
        self.face as int
    }

    /// Create a new [FaceIter], starting with [Face::UP].
    pub fn new() -> (r: Self)
        ensures
            r.position() == 0,
    {
        FaceIter { face: 0 }
    }

    /// Get the current [Face], unless the iterator is exhausted, in
    /// which case it will return [None].
    pub fn current(&self) -> (r: Option<Face>)
        ensures
            self.position() < 6 ==> r == Some(Face::from_code(self.position())),
            self.position() >= 6 ==> r is None,
    {
        Face::from_u8(self.face)
    }

    /// Continue iteration, returning the current [Face] in the process.
    pub fn next(&mut self) -> (r: Option<Face>)
        ensures
            old(self).position() < 6 ==> r == Some(Face::from_code(old(self).position()))
                && final(self).position() == old(self).position() + 1,
            old(self).position() >= 6 ==> r is None && final(self).position() == old(
                self,
            ).position(),
    {
        match self.current() {
            None => None,
            some => {
                self.face = self.face + 1;
                some
            },
        }
    }
}

/// An iterator of each [Face] in lexicographic order:
/// `NegX, NegY, NegZ, PosX, PosY, PosZ`.
#[derive(Debug, Clone)]
pub struct LexFaceIter {
    index: u8,
}

impl LexFaceIter {
    /// How many faces the iterator has passed.
    pub closed spec fn position(self) -> int {
        self.index as int
    }

    /// The faces in lexicographic order.
    fn order() -> (r: [Face; 6])
        ensures
            forall|i: int| 0 <= i < 6 ==> #[trigger] r@[i] == Face::lex_face(i),
    {
        [Face::NegX, Face::NegY, Face::NegZ, Face::PosX, Face::PosY, Face::PosZ]
    }

    /// Create a new [LexFaceIter], starting with [Face::NegX].
    pub fn new() -> (r: Self)
        ensures
            r.position() == 0,
    {
        LexFaceIter { index: 0 }
    }

    /// Get the current [Face], unless the iterator is exhausted.
    pub fn current(&self) -> (r: Option<Face>)
        ensures
            self.position() < 6 ==> r == Some(Face::lex_face(self.position())),
            self.position() >= 6 ==> r is None,
    {
        if self.index > 5 {
            return None;
        }
        Some(LexFaceIter::order()[self.index as usize])
    }

    /// Continue iteration, returning the current [Face] in the process.
    pub fn next(&mut self) -> (r: Option<Face>)
        ensures
            old(self).position() < 6 ==> r == Some(Face::lex_face(old(self).position()))
                && final(self).position() == old(self).position() + 1,
            old(self).position() >= 6 ==> r is None && final(self).position() == old(
                self,
            ).position(),
    {
        match self.current() {
            None => None,
            some => {
                self.index = self.index + 1;
                some
            },
        }
    }
}

} // verus!

verus! {

/// Whether going from axis `a` to axis `b` follows the cyclic order
/// `X -> Y -> Z -> X`.
pub open spec fn axis_cyclic(a: Axis, b: Axis) -> bool {
    (a == Axis::X && b == Axis::Y) || (a == Axis::Y && b == Axis::Z) || (a == Axis::Z && b
        == Axis::X)
}

/// The axis that is neither `a` nor `b` (for two different axes).
pub open spec fn third_axis(a: Axis, b: Axis) -> Axis {
    if a != Axis::X && b != Axis::X {
        Axis::X
    } else if a != Axis::Y && b != Axis::Y {
        Axis::Y
    } else {
        Axis::Z
    }
}

/// The face on `axis` that is negative when `negative` holds.
pub open spec fn face_on(axis: Axis, negative: bool) -> Face {
    match axis {
        Axis::X => if negative { Face::NegX } else { Face::PosX },
        Axis::Y => if negative { Face::NegY } else { Face::PosY },
        Axis::Z => if negative { Face::NegZ } else { Face::PosZ },
    }
}

/// The cross product `a x b` of the normals of two orthogonal faces.
pub open spec fn cross(a: Face, b: Face) -> Face {
    face_on(
        third_axis(a.spec_axis(), b.spec_axis()),
        (a.spec_is_negative() != b.spec_is_negative()) == axis_cyclic(a.spec_axis(), b.spec_axis()),
    )
}

/// Two faces are orthogonal when they lie on different axes.
pub open spec fn orthogonal(a: Face, b: Face) -> bool {
    a.spec_axis() != b.spec_axis()
}

/// The image of `face` under the rotation that carries Up to `up`
/// and Forward to `forward` (two orthogonal faces): Right goes to
/// `forward x up` and Left to `up x forward`.
pub open spec fn frame(up: Face, forward: Face, face: Face) -> Face {
    match face {
        Face::PosY => up,
        Face::NegY => up.spec_invert(),
        Face::NegZ => forward,
        Face::PosZ => forward.spec_invert(),
        Face::PosX => cross(forward, up),
        Face::NegX => cross(up, forward),
    }
}

} // verus!

verus! {

/// The face numbers follow the cardinal directions: Up, Forward, Left,
/// Backward, Right, Down are 0 to 5, and the named directions are three
/// pairs of opposite faces.
pub proof fn law_cardinal_numbers()
    ensures
        Face::UP.spec_as_u8() == 0,
        Face::FORWARD.spec_as_u8() == 1,
        Face::LEFT.spec_as_u8() == 2,
        Face::BACKWARD.spec_as_u8() == 3,
        Face::RIGHT.spec_as_u8() == 4,
        Face::DOWN.spec_as_u8() == 5,
        Face::DOWN == Face::UP.spec_invert(),
        Face::LEFT == Face::RIGHT.spec_invert(),
        Face::BACKWARD == Face::FORWARD.spec_invert(),
{
}

/// Inverting a face twice gives the face back; the inverse is another
/// face on the same axis.
pub proof fn law_face_invert(f: Face)
    ensures
        f.spec_invert().spec_invert() == f,
        f.spec_invert() != f,
        f.spec_invert().spec_axis() == f.spec_axis(),
        f.spec_invert().spec_is_negative() != f.spec_is_negative(),
{
}

/// The four directions on a face lie on the other two axes: Up and Down
/// are opposite, Left and Right are opposite, and Up is orthogonal to
/// Left. A face turned four times is back where it was.
pub proof fn law_face_directions(f: Face, k: int)
    ensures
        orthogonal(f, f.spec_up()),
        orthogonal(f, f.spec_left()),
        orthogonal(f.spec_up(), f.spec_left()),
        f.spec_down() == f.spec_up().spec_invert(),
        f.spec_right() == f.spec_left().spec_invert(),
        f.up_turned(k + 4) == f.up_turned(k),
{
}

/// The numbers `0..6` name each face exactly once, so [Face::iter] visits
/// every face once; so does [Face::lexicographic_iter].
pub proof fn law_face_codes(f: Face, n: int)
    ensures
        Face::from_code(f.spec_as_u8() as int) == f,
        0 <= n < 6 ==> Face::from_code(n).spec_as_u8() == n,
        exists|i: int| 0 <= i < 6 && #[trigger] Face::lex_face(i) == f,
        forall|i: int, j: int|
            0 <= i < j < 6 ==> #[trigger] Face::lex_face(i) != #[trigger] Face::lex_face(j),
{
    if f == Face::NegX {
        assert(Face::lex_face(0) == f);
    } else if f == Face::NegY {
        assert(Face::lex_face(1) == f);
    } else if f == Face::NegZ {
        assert(Face::lex_face(2) == f);
    } else if f == Face::PosX {
        assert(Face::lex_face(3) == f);
    } else if f == Face::PosY {
        assert(Face::lex_face(4) == f);
    } else {
        assert(Face::lex_face(5) == f);
    }
}

} // verus!

verus! {

impl<T: Copy> core::ops::Index<Face> for FaceTable<T> {
    type Output = T;

    fn index(&self, index: Face) -> (r: &T)
        ensures
            *r == self.at(index),
    {
        &self.0[index.as_u8() as usize]
    }
}

impl<T: Copy> core::ops::IndexMut<Face> for FaceTable<T> {
    fn index_mut(&mut self, index: Face) -> (r: &mut T)
        ensures
            *r == old(self).at(index),
            final(self).0@ == old(self).0@.update(index.spec_as_u8() as int, *final(r)),
    {
        &mut self.0[index.as_u8() as usize]
    }
}

} // verus!

verus! {

/// The coordinates of a face are its unit normal: the component on the
/// face's axis is -1 for a negative face and +1 for a positive one, and
/// the other two components are 0. So a face and its inverse have
/// opposite normals, and different faces have different normals.
pub proof fn law_face_coord(f: Face, g: Face)
    ensures
        f.coord().0 == (if f.spec_axis() == Axis::X {
            if f.spec_is_negative() { -1int } else { 1int }
        } else {
            0int
        }),
        f.coord().1 == (if f.spec_axis() == Axis::Y {
            if f.spec_is_negative() { -1int } else { 1int }
        } else {
            0int
        }),
        f.coord().2 == (if f.spec_axis() == Axis::Z {
            if f.spec_is_negative() { -1int } else { 1int }
        } else {
            0int
        }),
        f.spec_invert().coord().0 == -f.coord().0,
        f.spec_invert().coord().1 == -f.coord().1,
        f.spec_invert().coord().2 == -f.coord().2,
        f != g ==> f.coord() != g.coord(),
{
}

} // verus!
