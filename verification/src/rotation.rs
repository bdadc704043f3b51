use vstd::prelude::*;

use vstd::arithmetic::power::pow;

use crate::counting::{
    digits_of,
    digits_value,
    lemma_counter_state,
    lemma_digits_of_value,
    lemma_step_value,
    lemma_value_of_digits,
    lemma_zero_value,
};

use crate::axis::Axis;
use crate::face::{AngleDirection, Face, FaceTable, axial_face_table, cross, frame, orthogonal, quarter, quarter_index};

verus! {

/// One of the 24 rotations of a cube.
///
/// A rotation is named by the face that the Up face is carried to and
/// the number of quarter turns about that face: `NX1` carries Up to
/// `NegX` and turns it once. The variants are declared in the order of
/// their numbers (see [Rot::as_u8]), which is `4 * up.as_u8() + angle`.
#[derive(Debug, Clone, Copy, PartialEq, Eq, Structural, PartialOrd, Ord, Hash)]
pub enum Rot {
    PY0,
    PY1,
    PY2,
    PY3,
    NZ0,
    NZ1,
    NZ2,
    NZ3,
    NX0,
    NX1,
    NX2,
    NX3,
    PZ0,
    PZ1,
    PZ2,
    PZ3,
    PX0,
    PX1,
    PX2,
    PX3,
    NY0,
    NY1,
    NY2,
    NY3,
}

impl Rot {
    /// The number of the rotation.
    pub open spec fn spec_as_u8(self) -> u8 {
        match self {
            Rot::PY0 => 0,
            Rot::PY1 => 1,
            Rot::PY2 => 2,
            Rot::PY3 => 3,
            Rot::NZ0 => 4,
            Rot::NZ1 => 5,
            Rot::NZ2 => 6,
            Rot::NZ3 => 7,
            Rot::NX0 => 8,
            Rot::NX1 => 9,
            Rot::NX2 => 10,
            Rot::NX3 => 11,
            Rot::PZ0 => 12,
            Rot::PZ1 => 13,
            Rot::PZ2 => 14,
            Rot::PZ3 => 15,
            Rot::PX0 => 16,
            Rot::PX1 => 17,
            Rot::PX2 => 18,
            Rot::PX3 => 19,
            Rot::NY0 => 20,
            Rot::NY1 => 21,
            Rot::NY2 => 22,
            Rot::NY3 => 23,
        }
    }

    /// The rotation whose number is `n` (for `0 <= n < 24`).
    pub open spec fn from_code(n: int) -> Rot {
        if n == 0 {
            Rot::PY0
        } else if n == 1 {
            Rot::PY1
        } else if n == 2 {
            Rot::PY2
        } else if n == 3 {
            Rot::PY3
        } else if n == 4 {
            Rot::NZ0
        } else if n == 5 {
            Rot::NZ1
        } else if n == 6 {
            Rot::NZ2
        } else if n == 7 {
            Rot::NZ3
        } else if n == 8 {
            Rot::NX0
        } else if n == 9 {
            Rot::NX1
        } else if n == 10 {
            Rot::NX2
        } else if n == 11 {
            Rot::NX3
        } else if n == 12 {
            Rot::PZ0
        } else if n == 13 {
            Rot::PZ1
        } else if n == 14 {
            Rot::PZ2
        } else if n == 15 {
            Rot::PZ3
        } else if n == 16 {
            Rot::PX0
        } else if n == 17 {
            Rot::PX1
        } else if n == 18 {
            Rot::PX2
        } else if n == 19 {
            Rot::PX3
        } else if n == 20 {
            Rot::NY0
        } else if n == 21 {
            Rot::NY1
        } else if n == 22 {
            Rot::NY2
        } else {
            Rot::NY3
        }
    }

    /// The face that Up is carried to.
    pub open spec fn up_face(self) -> Face {
        Face::from_code(self.spec_as_u8() as int / 4)
    }

    /// The number of quarter turns about [Rot::up_face], from 0 to 3.
    pub open spec fn turns(self) -> int {
        self.spec_as_u8() as int % 4
    }

    /// The rotation that carries Up to `up` with `k` quarter turns.
    pub open spec fn make(up: Face, k: int) -> Rot {
        Rot::from_code(up.spec_as_u8() as int * 4 + k % 4)
    }

    /// The rotation that leaves every face in place.
    pub const IDENTITY: Rot = Rot::PY0;

    /// The rotation with the lowest number.
    pub const MIN: Rot = Rot::PY0;

    /// The rotation with the highest number.
    pub const MAX: Rot = Rot::NY3;

    /// The rotation that carries Up to Up, with angle 0.
    pub const UP: Rot = Rot::PY0;

    /// The rotation that carries Up to Forward, with angle 0.
    pub const FORWARD: Rot = Rot::NZ0;

    /// The rotation that carries Up to Left, with angle 0.
    pub const LEFT: Rot = Rot::NX0;

    /// The rotation that carries Up to Backward, with angle 0.
    pub const BACKWARD: Rot = Rot::PZ0;

    /// The rotation that carries Up to Right, with angle 0.
    pub const RIGHT: Rot = Rot::PX0;

    /// The rotation that carries Up to Down, with angle 0.
    pub const DOWN: Rot = Rot::NY0;

    /// The rotation that carries Up to `-X`, with angle 0.
    pub const NEG_X: Rot = Rot::NX0;

    /// The rotation that carries Up to `-Y`, with angle 0.
    pub const NEG_Y: Rot = Rot::NY0;

    /// The rotation that carries Up to `-Z`, with angle 0.
    pub const NEG_Z: Rot = Rot::NZ0;

    /// The rotation that carries Up to `+X`, with angle 0.
    pub const POS_X: Rot = Rot::PX0;

    /// The rotation that carries Up to `+Y`, with angle 0.
    pub const POS_Y: Rot = Rot::PY0;

    /// The rotation that carries Up to `+Z`, with angle 0.
    pub const POS_Z: Rot = Rot::PZ0;

    /// Where the rotation carries `face`.
    pub open spec fn spec_face_dest(self, face: Face) -> Face {
        let u = self.up_face();
        let k = self.turns();
        match face {
            Face::PosY => u,
            Face::PosX => u.right_turned(k),
            Face::NegZ => u.up_turned(k),
            Face::NegX => u.left_turned(k),
            Face::PosZ => u.down_turned(k),
            Face::NegY => u.spec_invert(),
        }
    }

    // --- CONSTRUCTORS ---
    /// Create a [Rot] from a raw [u8] value that is known to be a valid
    /// rotation number (`value < 24`).
    pub fn from_u8_unchecked(value: u8) -> (r: Self)
        requires
            value < 24,
        ensures
            r == Rot::from_code(value as int),
            r.spec_as_u8() == value,
    {
        match value {
            0 => Rot::PY0,
            1 => Rot::PY1,
            2 => Rot::PY2,
            3 => Rot::PY3,
            4 => Rot::NZ0,
            5 => Rot::NZ1,
            6 => Rot::NZ2,
            7 => Rot::NZ3,
            8 => Rot::NX0,
            9 => Rot::NX1,
            10 => Rot::NX2,
            11 => Rot::NX3,
            12 => Rot::PZ0,
            13 => Rot::PZ1,
            14 => Rot::PZ2,
            15 => Rot::PZ3,
            16 => Rot::PX0,
            17 => Rot::PX1,
            18 => Rot::PX2,
            19 => Rot::PX3,
            20 => Rot::NY0,
            21 => Rot::NY1,
            22 => Rot::NY2,
            _ => Rot::NY3,
        }
    }

    /// Attempt to create a [Rot] from a raw [u8] value; [None] when the
    /// value is not a rotation number.
    pub fn from_u8(value: u8) -> (r: Option<Self>)
        ensures
            value < 24 ==> r == Some(Rot::from_code(value as int)),
            value >= 24 ==> r is None,
    {
        if value > 23 {
            return None;
        }
        Some(Self::from_u8_unchecked(value))
    }

    /// The rotation whose number is `value % 24`.
    pub fn from_u8_wrapping(value: u8) -> (r: Self)
        ensures
            r == Rot::from_code(value as int % 24),
    {
        Self::from_u8_unchecked(value % 24)
    }

    /// The rotation that carries Up to `up`, turned `angle` quarter turns
    /// (only the low two bits of `angle` count).
    pub fn new(up: Face, angle: i8) -> (r: Self)
        ensures
            r == Rot::make(up, quarter(angle)),
            r.up_face() == up,
            r.turns() == quarter(angle),
    {
        Self::from_u8_unchecked(up.as_u8() * 4 + quarter_index(angle) as u8)
    }

    /// The rotation that carries Up to `up`, with angle 0.
    pub fn from_up(up: Face) -> (r: Self)
        ensures
            r == Rot::make(up, 0),
            r.up_face() == up,
            r.turns() == 0,
    {
        Self::new(up, 0)
    }

    /// This rotation with its Up face replaced by `up`; the angle is kept.
    pub fn with_up(self, up: Face) -> (r: Self)
        ensures
            r == Rot::make(up, self.turns()),
            r.up_face() == up,
            r.turns() == self.turns(),
    {
        Self::from_u8_unchecked(up.as_u8() * 4 + self.as_u8() % 4)
    }

    /// This rotation with its angle replaced by `angle`; the Up face is
    /// kept.
    pub fn with_angle(self, angle: i8) -> (r: Self)
        ensures
            r == Rot::make(self.up_face(), quarter(angle)),
            r.up_face() == self.up_face(),
            r.turns() == quarter(angle),
    {
        Self::from_u8_unchecked((self.as_u8() / 4) * 4 + quarter_index(angle) as u8)
    }

    /// Replace the Up face with the one that `update` returns for the
    /// current Up face.
    pub fn update_up<F: FnOnce(Face) -> Face>(&mut self, update: F)
        requires
            call_requires(update, (old(self).up_face(),)),
        ensures
            exists|up: Face|
                call_ensures(update, (old(self).up_face(),), up) && *final(self) == Rot::make(
                    up,
                    old(self).turns(),
                ),
    {
        let up = update(self.up());
        *self = self.with_up(up);
    }

    /// Replace the angle with the one that `update` returns for the
    /// current angle.
    pub fn update_angle<F: FnOnce(i8) -> i8>(&mut self, update: F)
        requires
            call_requires(update, (old(self).turns() as i8,)),
        ensures
            exists|angle: i8|
                call_ensures(update, (old(self).turns() as i8,), angle) && *final(self)
                    == Rot::make(old(self).up_face(), quarter(angle)),
    {
        let angle = update(self.angle());
        *self = self.with_angle(angle);
    }

    // --- ACCESSORS ---
    /// The number of the rotation: `4 * up.as_u8() + angle`.
    #[verifier::when_used_as_spec(spec_as_u8)]
    pub fn as_u8(self) -> (r: u8)
        ensures
            r == self.spec_as_u8(),
            r < 24,
    {
        match self {
            Rot::PY0 => 0,
            Rot::PY1 => 1,
            Rot::PY2 => 2,
            Rot::PY3 => 3,
            Rot::NZ0 => 4,
            Rot::NZ1 => 5,
            Rot::NZ2 => 6,
            Rot::NZ3 => 7,
            Rot::NX0 => 8,
            Rot::NX1 => 9,
            Rot::NX2 => 10,
            Rot::NX3 => 11,
            Rot::PZ0 => 12,
            Rot::PZ1 => 13,
            Rot::PZ2 => 14,
            Rot::PZ3 => 15,
            Rot::PX0 => 16,
            Rot::PX1 => 17,
            Rot::PX2 => 18,
            Rot::PX3 => 19,
            Rot::NY0 => 20,
            Rot::NY1 => 21,
            Rot::NY2 => 22,
            Rot::NY3 => 23,
        }
    }

    /// The number of quarter turns about the Up face, from 0 to 3.
    pub fn angle(self) -> (r: i8)
        ensures
            r == self.turns(),
    {
        (self.as_u8() % 4) as i8
    }

    /// The Up face and the angle.
    pub fn up_angle(self) -> (r: (Face, i8))
        ensures
            r.0 == self.up_face(),
            r.1 == self.turns(),
    {
        (self.up(), self.angle())
    }

    // --- QUERIES ---
    /// Where the rotation with Up face `up` and `angle` carries `world`.
    fn rotate_world_face(world: Face, up: Face, angle: i8) -> (r: Face)
        requires
            0 <= angle < 4,
        ensures
            r == Rot::make(up, angle as int).spec_face_dest(world),
    {
        if world == Face::UP {
            up
        } else if world == Face::RIGHT {
            up.right_at_angle(angle)
        } else if world == Face::FORWARD {
            up.up_at_angle(angle)
        } else if world == Face::LEFT {
            up.left_at_angle(angle)
        } else if world == Face::BACKWARD {
            up.down_at_angle(angle)
        } else {
            up.invert()
        }
    }

    /// Where the rotation carries `face`.
    #[verifier::when_used_as_spec(spec_face_dest)]
    pub fn face_dest(self, face: Face) -> (r: Face)
        ensures
            r == self.spec_face_dest(face),
    {
        let code = self.as_u8();
        let up = Face::from_u8_unchecked(code / 4);
        let angle = (code % 4) as i8;
        Rot::rotate_world_face(face, up, angle)
    }

    /// The face that the rotation carries to `face`.
    #[verifier::when_used_as_spec(spec_face_src)]
    pub fn face_src(self, face: Face) -> (r: Face)
        ensures
            r == self.spec_face_src(face),
            self.spec_face_dest(r) == face,
    {
        let mut i: u8 = 0;
        while i < 6
            invariant
                i <= 6,
                forall|j: int| 0 <= j < i ==> self.spec_face_dest(#[trigger] Face::from_code(j)) != face,
            decreases 6 - i,
        {
            let candidate = Face::from_u8_unchecked(i);
            if self.face_dest(candidate) == face {
                proof {
                    lemma_src_dest(self, candidate);
                }
                return candidate;
            }
            i = i + 1;
        }
        proof {
            lemma_src_dest(self, face);
            let g = self.spec_face_src(face);
            assert(self.spec_face_dest(Face::from_code(g.spec_as_u8() as int)) != face);
        }
        Face::UP
    }

    /// The rotation that carries Up to `up` and Forward to `forward`; [None]
    /// when the two faces are not orthogonal.
    #[verifier::when_used_as_spec(spec_from_up_and_forward)]
    pub fn from_up_and_forward(up: Face, forward: Face) -> (r: Option<Self>)
        ensures
            r == Rot::spec_from_up_and_forward(up, forward),
            r is Some <==> orthogonal(up, forward),
            r is Some ==> r->0.spec_face_dest(Face::UP) == up && r->0.spec_face_dest(Face::FORWARD)
                == forward,
    {
        proof {
            lemma_from_up_and_forward(up, forward);
        }
        match Face::ANGLE_DIRECTION {
            AngleDirection::CW => {
                if up.up().eq(forward) {
                    Some(Rot::new(up, 0))
                } else if up.right().eq(forward) {
                    Some(Rot::new(up, 1))
                } else if up.down().eq(forward) {
                    Some(Rot::new(up, 2))
                } else if up.left().eq(forward) {
                    Some(Rot::new(up, 3))
                } else {
                    None
                }
            },
            AngleDirection::CCW => {
                if up.up().eq(forward) {
                    Some(Rot::new(up, 0))
                } else if up.left().eq(forward) {
                    Some(Rot::new(up, 1))
                } else if up.down().eq(forward) {
                    Some(Rot::new(up, 2))
                } else if up.right().eq(forward) {
                    Some(Rot::new(up, 3))
                } else {
                    None
                }
            },
        }
    }

    /// The destination of [Face::NegX] after rotation.
    pub fn neg_x_dest(self) -> (r: Face)
        ensures
            r == self.spec_face_dest(Face::NegX),
    {
        self.face_dest(Face::NegX)
    }

    /// The destination of [Face::NegY] after rotation.
    pub fn neg_y_dest(self) -> (r: Face)
        ensures
            r == self.spec_face_dest(Face::NegY),
    {
        self.face_dest(Face::NegY)
    }

    /// The destination of [Face::NegZ] after rotation.
    pub fn neg_z_dest(self) -> (r: Face)
        ensures
            r == self.spec_face_dest(Face::NegZ),
    {
        self.face_dest(Face::NegZ)
    }

    /// The destination of [Face::PosX] after rotation.
    pub fn pos_x_dest(self) -> (r: Face)
        ensures
            r == self.spec_face_dest(Face::PosX),
    {
        self.face_dest(Face::PosX)
    }

    /// The destination of [Face::PosY] after rotation.
    pub fn pos_y_dest(self) -> (r: Face)
        ensures
            r == self.spec_face_dest(Face::PosY),
    {
        self.face_dest(Face::PosY)
    }

    /// The destination of [Face::PosZ] after rotation.
    pub fn pos_z_dest(self) -> (r: Face)
        ensures
            r == self.spec_face_dest(Face::PosZ),
    {
        self.face_dest(Face::PosZ)
    }

    /// The source of [Face::NegX] before rotation.
    pub fn neg_x_src(self) -> (r: Face)
        ensures
            r == self.spec_face_src(Face::NegX),
    {
        self.face_src(Face::NegX)
    }

    /// The source of [Face::NegY] before rotation.
    pub fn neg_y_src(self) -> (r: Face)
        ensures
            r == self.spec_face_src(Face::NegY),
    {
        self.face_src(Face::NegY)
    }

    /// The source of [Face::NegZ] before rotation.
    pub fn neg_z_src(self) -> (r: Face)
        ensures
            r == self.spec_face_src(Face::NegZ),
    {
        self.face_src(Face::NegZ)
    }

    /// The source of [Face::PosX] before rotation.
    pub fn pos_x_src(self) -> (r: Face)
        ensures
            r == self.spec_face_src(Face::PosX),
    {
        self.face_src(Face::PosX)
    }

    /// The source of [Face::PosY] before rotation.
    pub fn pos_y_src(self) -> (r: Face)
        ensures
            r == self.spec_face_src(Face::PosY),
    {
        self.face_src(Face::PosY)
    }

    /// The source of [Face::PosZ] before rotation.
    pub fn pos_z_src(self) -> (r: Face)
        ensures
            r == self.spec_face_src(Face::PosZ),
    {
        self.face_src(Face::PosZ)
    }

    /// Determines the destination of the Up face after rotation.
    pub fn up(self) -> (r: Face)
        ensures
            r == self.spec_face_dest(Face::UP),
    {
        self.pos_y_dest()
    }

    /// Determines the source of the Up face before rotation.
    pub fn up_src(self) -> (r: Face)
        ensures
            r == self.spec_face_src(Face::UP),
    {
        self.pos_y_src()
    }

    /// Determines the destination of the Forward face after rotation.
    pub fn forward(self) -> (r: Face)
        ensures
            r == self.spec_face_dest(Face::FORWARD),
    {
        self.neg_z_dest()
    }

    /// Determines the source of the Forward face before rotation.
    pub fn forward_src(self) -> (r: Face)
        ensures
            r == self.spec_face_src(Face::FORWARD),
    {
        self.neg_z_src()
    }

    /// Determines the destination of the Right face after rotation.
    pub fn right(self) -> (r: Face)
        ensures
            r == self.spec_face_dest(Face::RIGHT),
    {
        self.pos_x_dest()
    }

    /// Determines the source of the Right face before rotation.
    pub fn right_src(self) -> (r: Face)
        ensures
            r == self.spec_face_src(Face::RIGHT),
    {
        self.pos_x_src()
    }

    /// Determines the destination of the Down face after rotation.
    pub fn down(self) -> (r: Face)
        ensures
            r == self.spec_face_dest(Face::DOWN),
    {
        self.neg_y_dest()
    }

    /// Determines the source of the Down face before rotation.
    pub fn down_src(self) -> (r: Face)
        ensures
            r == self.spec_face_src(Face::DOWN),
    {
        self.neg_y_src()
    }

    /// Determines the destination of the Backward face after rotation.
    pub fn backward(self) -> (r: Face)
        ensures
            r == self.spec_face_dest(Face::BACKWARD),
    {
        self.pos_z_dest()
    }

    /// Determines the source of the Backward face before rotation.
    pub fn backward_src(self) -> (r: Face)
        ensures
            r == self.spec_face_src(Face::BACKWARD),
    {
        self.pos_z_src()
    }

    /// Determines the destination of the Left face after rotation.
    pub fn left(self) -> (r: Face)
        ensures
            r == self.spec_face_dest(Face::LEFT),
    {
        self.neg_x_dest()
    }

    /// Determines the source of the Left face before rotation.
    pub fn left_src(self) -> (r: Face)
        ensures
            r == self.spec_face_src(Face::LEFT),
    {
        self.neg_x_src()
    }
    /// Rotate `self` by `rotation`: the result carries each face first as
    /// `self` does and then as `rotation` does.
    #[verifier::when_used_as_spec(spec_rotate_by)]
    pub fn rotate_by(self, rotation: Self) -> (r: Self)
        ensures
            r == self.spec_rotate_by(rotation),
            forall|f: Face| #[trigger]
                r.spec_face_dest(f) == rotation.spec_face_dest(self.spec_face_dest(f)),
    {
        let up = rotation.face_dest(self.up());
        let fwd = rotation.face_dest(self.forward());
        proof {
            reveal(Rot::spec_rotate_by);
            lemma_up_forward_orthogonal();
            lemma_dest_orthogonal(self, Face::UP, Face::FORWARD);
            lemma_dest_orthogonal(rotation, self.spec_face_dest(Face::UP), self.spec_face_dest(Face::FORWARD));
            assert forall|f: Face| #[trigger]
                self.spec_rotate_by(rotation).spec_face_dest(f) == rotation.spec_face_dest(
                    self.spec_face_dest(f),
                ) by {
                lemma_rotate_by_dest(self, rotation, f);
            }
        }
        Rot::from_up_and_forward(up, fwd).unwrap()
    }

    /// Rotate `self` by the inverse of `rotation`.
    ///
    /// Equivalent to `self.rotate_by(rotation.invert())`.
    #[verifier::when_used_as_spec(spec_rotate_by_inverse)]
    pub fn rotate_by_inverse(self, rotation: Self) -> (r: Self)
        ensures
            r == self.spec_rotate_by_inverse(rotation),
            r == self.spec_rotate_by(rotation.spec_invert()),
            forall|f: Face| #[trigger]
                r.spec_face_dest(f) == rotation.spec_face_src(self.spec_face_dest(f)),
    {
        let up = rotation.face_src(self.up());
        let fwd = rotation.face_src(self.forward());
        proof {
            reveal(Rot::spec_rotate_by_inverse);
            lemma_up_forward_orthogonal();
            lemma_dest_orthogonal(self, Face::UP, Face::FORWARD);
            lemma_src_orthogonal(rotation, self.spec_face_dest(Face::UP), self.spec_face_dest(Face::FORWARD));
            assert forall|f: Face| #[trigger]
                self.spec_rotate_by_inverse(rotation).spec_face_dest(f) == rotation.spec_face_src(
                    self.spec_face_dest(f),
                ) by {
                lemma_rotate_by_inverse_dest(self, rotation, f);
            }
            law_rotate_by_inverse(self, rotation);
        }
        Rot::from_up_and_forward(up, fwd).unwrap()
    }

    /// Rotate `self` by itself.
    pub fn rotate_by_self(self) -> (r: Self)
        ensures
            r == self.spec_rotate_by(self),
            r == self.pow(2),
    {
        proof {
            lemma_pow_succ(self, 1);
            lemma_pow_one(self);
        }
        self.rotate_by(self)
    }

    /// Rotate `self` by `rotation` within the local space of `self`.
    ///
    /// Equivalent to `rotation.rotate_by(self)`.
    pub fn local_rotate_by(self, rotation: Self) -> (r: Self)
        ensures
            r == rotation.spec_rotate_by(self),
    {
        rotation.rotate_by(self)
    }

    /// Rotate `self` by the inverse of `rotation` within the local space of
    /// `self`.
    ///
    /// Equivalent to `rotation.invert().rotate_by(self)`.
    pub fn local_rotate_by_inverse(self, rotation: Self) -> (r: Self)
        ensures
            r == rotation.spec_invert().spec_rotate_by(self),
    {
        rotation.invert().rotate_by(self)
    }

    /// Invert the rotation. This gives a new rotation that can be used to
    /// "undo" rotations made with the source rotation.
    #[verifier::when_used_as_spec(spec_invert)]
    pub fn invert(self) -> (r: Self)
        ensures
            r == self.spec_invert(),
            forall|f: Face| #[trigger] r.spec_face_dest(f) == self.spec_face_src(f),
    {
        proof {
            assert forall|f: Face| #[trigger] self.spec_invert().spec_face_dest(f)
                == self.spec_face_src(f) by {
                lemma_invert_dest(self, f);
            }
        }
        Rot::IDENTITY.rotate_by_inverse(self)
    }

    /// Determines the angle of the face that the rotation carries to
    /// `face`, as it sits at `face`: the number of quarter turns from the
    /// Up of `face` to where the source face's Up was carried.
    pub fn src_face_angle(self, face: Face) -> (r: i8)
        ensures
            0 <= r < 4,
            face.up_turned(r as int) == self.spec_face_dest(self.spec_face_src(face).spec_up()),
    {
        let src = self.face_src(face);
        let src_up = src.up();
        let src_up_dest = self.face_dest(src_up);
        proof {
            lemma_src_dest(self, face);
            lemma_up_orthogonal(src);
            lemma_dest_orthogonal(self, src, src_up);
            lemma_orthogonal_is_turned_up(face, src_up_dest);
        }
        match Face::ANGLE_DIRECTION {
            AngleDirection::CW => {
                if src_up_dest.eq(face.up()) {
                    0
                } else if src_up_dest.eq(face.right()) {
                    1
                } else if src_up_dest.eq(face.down()) {
                    2
                } else {
                    3
                }
            },
            AngleDirection::CCW => {
                if src_up_dest.eq(face.up()) {
                    0
                } else if src_up_dest.eq(face.left()) {
                    1
                } else if src_up_dest.eq(face.down()) {
                    2
                } else {
                    3
                }
            },
        }
    }

    /// Determines the angle of `face` in its position after rotation.
    pub fn dest_face_angle(self, face: Face) -> (r: i8)
        ensures
            0 <= r < 4,
            self.spec_face_dest(face).up_turned(r as int) == self.spec_face_dest(face.spec_up()),
    {
        proof {
            lemma_src_dest(self, face);
        }
        self.src_face_angle(self.face_dest(face))
    }

    /// The rotation that takes `self` to `other`:
    /// `self.rotate_by(self.diff(other)) == other`.
    pub fn diff(self, other: Self) -> (r: Self)
        ensures
            r == self.spec_invert().spec_rotate_by(other),
    {
        self.invert().rotate_by(other)
    }

    /// The conjugate of `rotation` by `self`: `self.invert()`, then
    /// `rotation`, then `self`.
    pub fn conjugate(self, rotation: Self) -> (r: Self)
        ensures
            r == self.spec_invert().spec_rotate_by(rotation).spec_rotate_by(self),
    {
        self.invert().rotate_by(rotation).rotate_by(self)
    }

    /// Check `self` is equal to `other`.
    pub fn eq(self, other: Self) -> (r: bool)
        ensures
            r == (self == other),
    {
        self.as_u8() == other.as_u8()
    }

    /// Check `self` is not equal to `other`.
    pub fn ne(self, other: Self) -> (r: bool)
        ensures
            r == (self != other),
    {
        self.as_u8() != other.as_u8()
    }

    /// The number of steps after which the rotation returns to the
    /// identity.
    pub fn cycle_count(self) -> (r: RotCycleCount)
        ensures
            r.spec_count() == self.cycle_len(),
    {
        proof {
            law_cycle_len(self);
            law_rotate_by_identity(self);
            lemma_pow_one(self);
        }
        let mut count: u8 = 1;
        let mut next = Rot::IDENTITY.rotate_by(self);
        while next.ne(Rot::IDENTITY)
            invariant
                1 <= count <= self.cycle_len(),
                self.cycle_len() <= 4,
                next == self.pow(count as nat),
                self.pow(self.cycle_len()) == Rot::IDENTITY,
                forall|j: nat| 1 <= j < self.cycle_len() ==> self.pow(j) != Rot::IDENTITY,
            decreases 4 - count,
        {
            proof {
                lemma_pow_succ(self, count as nat);
            }
            next = next.rotate_by(self);
            count = count + 1;
        }
        match count {
            1 => RotCycleCount::C1,
            2 => RotCycleCount::C2,
            3 => RotCycleCount::C3,
            _ => RotCycleCount::C4,
        }
    }

    /// The powers of the rotation, up to its cycle length.
    pub fn angles(self) -> (r: RotAngles)
        ensures
            r.spec_base() == self,
            r.spec_size() == self.cycle_len(),
    {
        proof {
            lemma_pow_one(self);
            law_cycle_len(self);
        }
        match self.cycle_count() {
            RotCycleCount::C1 => RotAngles(RotAnglesKind::Identity),
            RotCycleCount::C2 => RotAngles(RotAnglesKind::Binary(self)),
            RotCycleCount::C3 => RotAngles(RotAnglesKind::Ternary([self, self.rotate_by_self()])),
            RotCycleCount::C4 => {
                let next1 = self.rotate_by_self();
                let next2 = next1.rotate_by(self);
                proof {
                    lemma_pow_succ(self, 2);
                }
                RotAngles(RotAnglesKind::Quaternary([self, next1, next2]))
            },
        }
    }


    /// The quarter turns about the `X` axis.
    #[allow(non_snake_case)]
    pub fn ROTATE_X() -> (r: QuarterTurns)
        ensures
            r.spec_base() == Rot::quarter_turn_x(),
    {
        proof {
            law_quarter_turns();
        }
        QuarterTurns::build(Rot::PZ0)
    }

    /// The counter-clockwise quarter turns about the `X` axis.
    #[allow(non_snake_case)]
    pub fn ROTATE_X_CCW() -> (r: QuarterTurns)
        ensures
            r.spec_base() == Rot::quarter_turn_x(),
    {
        match Face::ANGLE_DIRECTION {
            AngleDirection::CW => Self::ROTATE_X().invert(),
            AngleDirection::CCW => Self::ROTATE_X(),
        }
    }

    /// The clockwise quarter turns about the `X` axis.
    #[allow(non_snake_case)]
    pub fn ROTATE_X_CW() -> (r: QuarterTurns)
        ensures
            r.spec_base() == Rot::quarter_turn_x().spec_invert(),
    {
        match Face::ANGLE_DIRECTION {
            AngleDirection::CW => Self::ROTATE_X(),
            AngleDirection::CCW => Self::ROTATE_X().invert(),
        }
    }

    /// The quarter turns about the `-X` face.
    #[allow(non_snake_case)]
    pub fn ROTATE_NEG_X() -> (r: QuarterTurns)
        ensures
            r.spec_base() == Rot::quarter_turn_x().spec_invert(),
    {
        Self::ROTATE_X().invert()
    }

    /// The clockwise quarter turns about the `-X` face.
    #[allow(non_snake_case)]
    pub fn ROTATE_NEG_X_CW() -> (r: QuarterTurns)
        ensures
            r.spec_base() == Rot::quarter_turn_x(),
    {
        Self::ROTATE_X_CCW()
    }

    /// The counter-clockwise quarter turns about the `-X` face.
    #[allow(non_snake_case)]
    pub fn ROTATE_NEG_X_CCW() -> (r: QuarterTurns)
        ensures
            r.spec_base() == Rot::quarter_turn_x().spec_invert(),
    {
        Self::ROTATE_X_CW()
    }

    /// The quarter turns about the `+X` face.
    #[allow(non_snake_case)]
    pub fn ROTATE_POS_X() -> (r: QuarterTurns)
        ensures
            r.spec_base() == Rot::quarter_turn_x(),
    {
        Self::ROTATE_X()
    }

    /// The clockwise quarter turns about the `+X` face.
    #[allow(non_snake_case)]
    pub fn ROTATE_POS_X_CW() -> (r: QuarterTurns)
        ensures
            r.spec_base() == Rot::quarter_turn_x().spec_invert(),
    {
        Self::ROTATE_X_CW()
    }

    /// The counter-clockwise quarter turns about the `+X` face.
    #[allow(non_snake_case)]
    pub fn ROTATE_POS_X_CCW() -> (r: QuarterTurns)
        ensures
            r.spec_base() == Rot::quarter_turn_x(),
    {
        Self::ROTATE_X_CCW()
    }

    /// The quarter turns about the `Y` axis.
    #[allow(non_snake_case)]
    pub fn ROTATE_Y() -> (r: QuarterTurns)
        ensures
            r.spec_base() == Rot::quarter_turn_y(),
    {
        proof {
            law_quarter_turns();
        }
        QuarterTurns::build(Rot::PY1)
    }

    /// The counter-clockwise quarter turns about the `Y` axis.
    #[allow(non_snake_case)]
    pub fn ROTATE_Y_CCW() -> (r: QuarterTurns)
        ensures
            r.spec_base() == Rot::quarter_turn_y(),
    {
        match Face::ANGLE_DIRECTION {
            AngleDirection::CW => Self::ROTATE_Y().invert(),
            AngleDirection::CCW => Self::ROTATE_Y(),
        }
    }

    /// The clockwise quarter turns about the `Y` axis.
    #[allow(non_snake_case)]
    pub fn ROTATE_Y_CW() -> (r: QuarterTurns)
        ensures
            r.spec_base() == Rot::quarter_turn_y().spec_invert(),
    {
        match Face::ANGLE_DIRECTION {
            AngleDirection::CW => Self::ROTATE_Y(),
            AngleDirection::CCW => Self::ROTATE_Y().invert(),
        }
    }

    /// The quarter turns about the `-Y` face.
    #[allow(non_snake_case)]
    pub fn ROTATE_NEG_Y() -> (r: QuarterTurns)
        ensures
            r.spec_base() == Rot::quarter_turn_y().spec_invert(),
    {
        Self::ROTATE_Y().invert()
    }

    /// The clockwise quarter turns about the `-Y` face.
    #[allow(non_snake_case)]
    pub fn ROTATE_NEG_Y_CW() -> (r: QuarterTurns)
        ensures
            r.spec_base() == Rot::quarter_turn_y(),
    {
        Self::ROTATE_Y_CCW()
    }

    /// The counter-clockwise quarter turns about the `-Y` face.
    #[allow(non_snake_case)]
    pub fn ROTATE_NEG_Y_CCW() -> (r: QuarterTurns)
        ensures
            r.spec_base() == Rot::quarter_turn_y().spec_invert(),
    {
        Self::ROTATE_Y_CW()
    }

    /// The quarter turns about the `+Y` face.
    #[allow(non_snake_case)]
    pub fn ROTATE_POS_Y() -> (r: QuarterTurns)
        ensures
            r.spec_base() == Rot::quarter_turn_y(),
    {
        Self::ROTATE_Y()
    }

    /// The clockwise quarter turns about the `+Y` face.
    #[allow(non_snake_case)]
    pub fn ROTATE_POS_Y_CW() -> (r: QuarterTurns)
        ensures
            r.spec_base() == Rot::quarter_turn_y().spec_invert(),
    {
        Self::ROTATE_Y_CW()
    }

    /// The counter-clockwise quarter turns about the `+Y` face.
    #[allow(non_snake_case)]
    pub fn ROTATE_POS_Y_CCW() -> (r: QuarterTurns)
        ensures
            r.spec_base() == Rot::quarter_turn_y(),
    {
        Self::ROTATE_Y_CCW()
    }

    /// The quarter turns about the `Z` axis.
    #[allow(non_snake_case)]
    pub fn ROTATE_Z() -> (r: QuarterTurns)
        ensures
            r.spec_base() == Rot::quarter_turn_z(),
    {
        proof {
            law_quarter_turns();
        }
        QuarterTurns::build(Rot::NX1)
    }

    /// The counter-clockwise quarter turns about the `Z` axis.
    #[allow(non_snake_case)]
    pub fn ROTATE_Z_CCW() -> (r: QuarterTurns)
        ensures
            r.spec_base() == Rot::quarter_turn_z(),
    {
        match Face::ANGLE_DIRECTION {
            AngleDirection::CW => Self::ROTATE_Z().invert(),
            AngleDirection::CCW => Self::ROTATE_Z(),
        }
    }

    /// The clockwise quarter turns about the `Z` axis.
    #[allow(non_snake_case)]
    pub fn ROTATE_Z_CW() -> (r: QuarterTurns)
        ensures
            r.spec_base() == Rot::quarter_turn_z().spec_invert(),
    {
        match Face::ANGLE_DIRECTION {
            AngleDirection::CW => Self::ROTATE_Z(),
            AngleDirection::CCW => Self::ROTATE_Z().invert(),
        }
    }

    /// The quarter turns about the `-Z` face.
    #[allow(non_snake_case)]
    pub fn ROTATE_NEG_Z() -> (r: QuarterTurns)
        ensures
            r.spec_base() == Rot::quarter_turn_z().spec_invert(),
    {
        Self::ROTATE_Z().invert()
    }

    /// The clockwise quarter turns about the `-Z` face.
    #[allow(non_snake_case)]
    pub fn ROTATE_NEG_Z_CW() -> (r: QuarterTurns)
        ensures
            r.spec_base() == Rot::quarter_turn_z(),
    {
        Self::ROTATE_Z_CCW()
    }

    /// The counter-clockwise quarter turns about the `-Z` face.
    #[allow(non_snake_case)]
    pub fn ROTATE_NEG_Z_CCW() -> (r: QuarterTurns)
        ensures
            r.spec_base() == Rot::quarter_turn_z().spec_invert(),
    {
        Self::ROTATE_Z_CW()
    }

    /// The quarter turns about the `+Z` face.
    #[allow(non_snake_case)]
    pub fn ROTATE_POS_Z() -> (r: QuarterTurns)
        ensures
            r.spec_base() == Rot::quarter_turn_z(),
    {
        Self::ROTATE_Z()
    }

    /// The clockwise quarter turns about the `+Z` face.
    #[allow(non_snake_case)]
    pub fn ROTATE_POS_Z_CW() -> (r: QuarterTurns)
        ensures
            r.spec_base() == Rot::quarter_turn_z().spec_invert(),
    {
        Self::ROTATE_Z_CW()
    }

    /// The counter-clockwise quarter turns about the `+Z` face.
    #[allow(non_snake_case)]
    pub fn ROTATE_POS_Z_CCW() -> (r: QuarterTurns)
        ensures
            r.spec_base() == Rot::quarter_turn_z(),
    {
        Self::ROTATE_Z_CCW()
    }

    /// The quarter turns about each face.
    #[allow(non_snake_case)]
    pub fn ROTATE_FACE_TABLE() -> (r: FaceTable<QuarterTurns>)
        ensures
            r.at(Face::NegX).spec_base() == Rot::quarter_turn_x().spec_invert(),
            r.at(Face::NegY).spec_base() == Rot::quarter_turn_y().spec_invert(),
            r.at(Face::NegZ).spec_base() == Rot::quarter_turn_z().spec_invert(),
            r.at(Face::PosX).spec_base() == Rot::quarter_turn_x(),
            r.at(Face::PosY).spec_base() == Rot::quarter_turn_y(),
            r.at(Face::PosZ).spec_base() == Rot::quarter_turn_z(),
    {
        axial_face_table(
            Self::ROTATE_NEG_X(),
            Self::ROTATE_NEG_Y(),
            Self::ROTATE_NEG_Z(),
            Self::ROTATE_POS_X(),
            Self::ROTATE_POS_Y(),
            Self::ROTATE_POS_Z(),
        )
    }

    /// The clockwise quarter turns about each face.
    #[allow(non_snake_case)]
    pub fn ROTATE_FACE_CW_TABLE() -> (r: FaceTable<QuarterTurns>)
        ensures
            r.at(Face::NegX).spec_base() == Rot::quarter_turn_x(),
            r.at(Face::NegY).spec_base() == Rot::quarter_turn_y(),
            r.at(Face::NegZ).spec_base() == Rot::quarter_turn_z(),
            r.at(Face::PosX).spec_base() == Rot::quarter_turn_x().spec_invert(),
            r.at(Face::PosY).spec_base() == Rot::quarter_turn_y().spec_invert(),
            r.at(Face::PosZ).spec_base() == Rot::quarter_turn_z().spec_invert(),
    {
        axial_face_table(
            Self::ROTATE_NEG_X_CW(),
            Self::ROTATE_NEG_Y_CW(),
            Self::ROTATE_NEG_Z_CW(),
            Self::ROTATE_POS_X_CW(),
            Self::ROTATE_POS_Y_CW(),
            Self::ROTATE_POS_Z_CW(),
        )
    }

    /// The counter-clockwise quarter turns about each face.
    #[allow(non_snake_case)]
    pub fn ROTATE_FACE_CCW_TABLE() -> (r: FaceTable<QuarterTurns>)
        ensures
            r.at(Face::NegX).spec_base() == Rot::quarter_turn_x().spec_invert(),
            r.at(Face::NegY).spec_base() == Rot::quarter_turn_y().spec_invert(),
            r.at(Face::NegZ).spec_base() == Rot::quarter_turn_z().spec_invert(),
            r.at(Face::PosX).spec_base() == Rot::quarter_turn_x(),
            r.at(Face::PosY).spec_base() == Rot::quarter_turn_y(),
            r.at(Face::PosZ).spec_base() == Rot::quarter_turn_z(),
    {
        axial_face_table(
            Self::ROTATE_NEG_X_CCW(),
            Self::ROTATE_NEG_Y_CCW(),
            Self::ROTATE_NEG_Z_CCW(),
            Self::ROTATE_POS_X_CCW(),
            Self::ROTATE_POS_Y_CCW(),
            Self::ROTATE_POS_Z_CCW(),
        )
    }

    /// Rotate by the `ROTATE_X` quarter turns, `angle` times.
    pub fn rotate_x(self, angle: i8) -> (r: Self)
        ensures
            r == self.spec_rotate_by(Rot::quarter_turn_x().pow(quarter(angle) as nat)),
    {
        self.rotate_by(Self::ROTATE_X().get(angle))
    }

    /// Rotate by the `ROTATE_X_CW` quarter turns, `angle` times.
    pub fn rotate_x_cw(self, angle: i8) -> (r: Self)
        ensures
            r == self.spec_rotate_by(Rot::quarter_turn_x().spec_invert().pow(quarter(angle) as nat)),
    {
        self.rotate_by(Self::ROTATE_X_CW().get(angle))
    }

    /// Rotate by the `ROTATE_X_CCW` quarter turns, `angle` times.
    pub fn rotate_x_ccw(self, angle: i8) -> (r: Self)
        ensures
            r == self.spec_rotate_by(Rot::quarter_turn_x().pow(quarter(angle) as nat)),
    {
        self.rotate_by(Self::ROTATE_X_CCW().get(angle))
    }

    /// Rotate by the `ROTATE_NEG_X` quarter turns, `angle` times.
    pub fn rotate_neg_x(self, angle: i8) -> (r: Self)
        ensures
            r == self.spec_rotate_by(Rot::quarter_turn_x().spec_invert().pow(quarter(angle) as nat)),
    {
        self.rotate_by(Self::ROTATE_NEG_X().get(angle))
    }

    /// Rotate by the `ROTATE_NEG_X_CW` quarter turns, `angle` times.
    pub fn rotate_neg_x_cw(self, angle: i8) -> (r: Self)
        ensures
            r == self.spec_rotate_by(Rot::quarter_turn_x().pow(quarter(angle) as nat)),
    {
        self.rotate_by(Self::ROTATE_NEG_X_CW().get(angle))
    }

    /// Rotate by the `ROTATE_NEG_X_CCW` quarter turns, `angle` times.
    pub fn rotate_neg_x_ccw(self, angle: i8) -> (r: Self)
        ensures
            r == self.spec_rotate_by(Rot::quarter_turn_x().spec_invert().pow(quarter(angle) as nat)),
    {
        self.rotate_by(Self::ROTATE_NEG_X_CCW().get(angle))
    }

    /// Rotate by the `ROTATE_POS_X` quarter turns, `angle` times.
    pub fn rotate_pos_x(self, angle: i8) -> (r: Self)
        ensures
            r == self.spec_rotate_by(Rot::quarter_turn_x().pow(quarter(angle) as nat)),
    {
        self.rotate_by(Self::ROTATE_POS_X().get(angle))
    }

    /// Rotate by the `ROTATE_POS_X_CW` quarter turns, `angle` times.
    pub fn rotate_pos_x_cw(self, angle: i8) -> (r: Self)
        ensures
            r == self.spec_rotate_by(Rot::quarter_turn_x().spec_invert().pow(quarter(angle) as nat)),
    {
        self.rotate_by(Self::ROTATE_POS_X_CW().get(angle))
    }

    /// Rotate by the `ROTATE_POS_X_CCW` quarter turns, `angle` times.
    pub fn rotate_pos_x_ccw(self, angle: i8) -> (r: Self)
        ensures
            r == self.spec_rotate_by(Rot::quarter_turn_x().pow(quarter(angle) as nat)),
    {
        self.rotate_by(Self::ROTATE_POS_X_CCW().get(angle))
    }

    /// Rotate by the `ROTATE_X` quarter turns, `angle` times, within the
    /// local space of `self`.
    pub fn local_rotate_x(self, angle: i8) -> (r: Self)
        ensures
            r == Rot::quarter_turn_x().pow(quarter(angle) as nat).spec_rotate_by(self),
    {
        self.local_rotate_by(Self::ROTATE_X().get(angle))
    }

    /// Rotate by the `ROTATE_X_CW` quarter turns, `angle` times, within the
    /// local space of `self`.
    pub fn local_rotate_x_cw(self, angle: i8) -> (r: Self)
        ensures
            r == Rot::quarter_turn_x().spec_invert().pow(quarter(angle) as nat).spec_rotate_by(self),
    {
        self.local_rotate_by(Self::ROTATE_X_CW().get(angle))
    }

    /// Rotate by the `ROTATE_X_CCW` quarter turns, `angle` times, within the
    /// local space of `self`.
    pub fn local_rotate_x_ccw(self, angle: i8) -> (r: Self)
        ensures
            r == Rot::quarter_turn_x().pow(quarter(angle) as nat).spec_rotate_by(self),
    {
        self.local_rotate_by(Self::ROTATE_X_CCW().get(angle))
    }

    /// Rotate by the `ROTATE_NEG_X` quarter turns, `angle` times, within the
    /// local space of `self`.
    pub fn local_rotate_neg_x(self, angle: i8) -> (r: Self)
        ensures
            r == Rot::quarter_turn_x().spec_invert().pow(quarter(angle) as nat).spec_rotate_by(self),
    {
        self.local_rotate_by(Self::ROTATE_NEG_X().get(angle))
    }

    /// Rotate by the `ROTATE_NEG_X_CW` quarter turns, `angle` times, within the
    /// local space of `self`.
    pub fn local_rotate_neg_x_cw(self, angle: i8) -> (r: Self)
        ensures
            r == Rot::quarter_turn_x().pow(quarter(angle) as nat).spec_rotate_by(self),
    {
        self.local_rotate_by(Self::ROTATE_NEG_X_CW().get(angle))
    }

    /// Rotate by the `ROTATE_NEG_X_CCW` quarter turns, `angle` times, within the
    /// local space of `self`.
    pub fn local_rotate_neg_x_ccw(self, angle: i8) -> (r: Self)
        ensures
            r == Rot::quarter_turn_x().spec_invert().pow(quarter(angle) as nat).spec_rotate_by(self),
    {
        self.local_rotate_by(Self::ROTATE_NEG_X_CCW().get(angle))
    }

    /// Rotate by the `ROTATE_POS_X` quarter turns, `angle` times, within the
    /// local space of `self`.
    pub fn local_rotate_pos_x(self, angle: i8) -> (r: Self)
        ensures
            r == Rot::quarter_turn_x().pow(quarter(angle) as nat).spec_rotate_by(self),
    {
        self.local_rotate_by(Self::ROTATE_POS_X().get(angle))
    }

    /// Rotate by the `ROTATE_POS_X_CW` quarter turns, `angle` times, within the
    /// local space of `self`.
    pub fn local_rotate_pos_x_cw(self, angle: i8) -> (r: Self)
        ensures
            r == Rot::quarter_turn_x().spec_invert().pow(quarter(angle) as nat).spec_rotate_by(self),
    {
        self.local_rotate_by(Self::ROTATE_POS_X_CW().get(angle))
    }

    /// Rotate by the `ROTATE_POS_X_CCW` quarter turns, `angle` times, within the
    /// local space of `self`.
    pub fn local_rotate_pos_x_ccw(self, angle: i8) -> (r: Self)
        ensures
            r == Rot::quarter_turn_x().pow(quarter(angle) as nat).spec_rotate_by(self),
    {
        self.local_rotate_by(Self::ROTATE_POS_X_CCW().get(angle))
    }

    /// Rotate by the `ROTATE_Y` quarter turns, `angle` times.
    pub fn rotate_y(self, angle: i8) -> (r: Self)
        ensures
            r == self.spec_rotate_by(Rot::quarter_turn_y().pow(quarter(angle) as nat)),
    {
        self.rotate_by(Self::ROTATE_Y().get(angle))
    }

    /// Rotate by the `ROTATE_Y_CW` quarter turns, `angle` times.
    pub fn rotate_y_cw(self, angle: i8) -> (r: Self)
        ensures
            r == self.spec_rotate_by(Rot::quarter_turn_y().spec_invert().pow(quarter(angle) as nat)),
    {
        self.rotate_by(Self::ROTATE_Y_CW().get(angle))
    }

    /// Rotate by the `ROTATE_Y_CCW` quarter turns, `angle` times.
    pub fn rotate_y_ccw(self, angle: i8) -> (r: Self)
        ensures
            r == self.spec_rotate_by(Rot::quarter_turn_y().pow(quarter(angle) as nat)),
    {
        self.rotate_by(Self::ROTATE_Y_CCW().get(angle))
    }

    /// Rotate by the `ROTATE_NEG_Y` quarter turns, `angle` times.
    pub fn rotate_neg_y(self, angle: i8) -> (r: Self)
        ensures
            r == self.spec_rotate_by(Rot::quarter_turn_y().spec_invert().pow(quarter(angle) as nat)),
    {
        self.rotate_by(Self::ROTATE_NEG_Y().get(angle))
    }

    /// Rotate by the `ROTATE_NEG_Y_CW` quarter turns, `angle` times.
    pub fn rotate_neg_y_cw(self, angle: i8) -> (r: Self)
        ensures
            r == self.spec_rotate_by(Rot::quarter_turn_y().pow(quarter(angle) as nat)),
    {
        self.rotate_by(Self::ROTATE_NEG_Y_CW().get(angle))
    }

    /// Rotate by the `ROTATE_NEG_Y_CCW` quarter turns, `angle` times.
    pub fn rotate_neg_y_ccw(self, angle: i8) -> (r: Self)
        ensures
            r == self.spec_rotate_by(Rot::quarter_turn_y().spec_invert().pow(quarter(angle) as nat)),
    {
        self.rotate_by(Self::ROTATE_NEG_Y_CCW().get(angle))
    }

    /// Rotate by the `ROTATE_POS_Y` quarter turns, `angle` times.
    pub fn rotate_pos_y(self, angle: i8) -> (r: Self)
        ensures
            r == self.spec_rotate_by(Rot::quarter_turn_y().pow(quarter(angle) as nat)),
    {
        self.rotate_by(Self::ROTATE_POS_Y().get(angle))
    }

    /// Rotate by the `ROTATE_POS_Y_CW` quarter turns, `angle` times.
    pub fn rotate_pos_y_cw(self, angle: i8) -> (r: Self)
        ensures
            r == self.spec_rotate_by(Rot::quarter_turn_y().spec_invert().pow(quarter(angle) as nat)),
    {
        self.rotate_by(Self::ROTATE_POS_Y_CW().get(angle))
    }

    /// Rotate by the `ROTATE_POS_Y_CCW` quarter turns, `angle` times.
    pub fn rotate_pos_y_ccw(self, angle: i8) -> (r: Self)
        ensures
            r == self.spec_rotate_by(Rot::quarter_turn_y().pow(quarter(angle) as nat)),
    {
        self.rotate_by(Self::ROTATE_POS_Y_CCW().get(angle))
    }

    /// Rotate by the `ROTATE_Y` quarter turns, `angle` times, within the
    /// local space of `self`.
    pub fn local_rotate_y(self, angle: i8) -> (r: Self)
        ensures
            r == Rot::quarter_turn_y().pow(quarter(angle) as nat).spec_rotate_by(self),
    {
        self.local_rotate_by(Self::ROTATE_Y().get(angle))
    }

    /// Rotate by the `ROTATE_Y_CW` quarter turns, `angle` times, within the
    /// local space of `self`.
    pub fn local_rotate_y_cw(self, angle: i8) -> (r: Self)
        ensures
            r == Rot::quarter_turn_y().spec_invert().pow(quarter(angle) as nat).spec_rotate_by(self),
    {
        self.local_rotate_by(Self::ROTATE_Y_CW().get(angle))
    }

    /// Rotate by the `ROTATE_Y_CCW` quarter turns, `angle` times, within the
    /// local space of `self`.
    pub fn local_rotate_y_ccw(self, angle: i8) -> (r: Self)
        ensures
            r == Rot::quarter_turn_y().pow(quarter(angle) as nat).spec_rotate_by(self),
    {
        self.local_rotate_by(Self::ROTATE_Y_CCW().get(angle))
    }

    /// Rotate by the `ROTATE_NEG_Y` quarter turns, `angle` times, within the
    /// local space of `self`.
    pub fn local_rotate_neg_y(self, angle: i8) -> (r: Self)
        ensures
            r == Rot::quarter_turn_y().spec_invert().pow(quarter(angle) as nat).spec_rotate_by(self),
    {
        self.local_rotate_by(Self::ROTATE_NEG_Y().get(angle))
    }

    /// Rotate by the `ROTATE_NEG_Y_CW` quarter turns, `angle` times, within the
    /// local space of `self`.
    pub fn local_rotate_neg_y_cw(self, angle: i8) -> (r: Self)
        ensures
            r == Rot::quarter_turn_y().pow(quarter(angle) as nat).spec_rotate_by(self),
    {
        self.local_rotate_by(Self::ROTATE_NEG_Y_CW().get(angle))
    }

    /// Rotate by the `ROTATE_NEG_Y_CCW` quarter turns, `angle` times, within the
    /// local space of `self`.
    pub fn local_rotate_neg_y_ccw(self, angle: i8) -> (r: Self)
        ensures
            r == Rot::quarter_turn_y().spec_invert().pow(quarter(angle) as nat).spec_rotate_by(self),
    {
        self.local_rotate_by(Self::ROTATE_NEG_Y_CCW().get(angle))
    }

    /// Rotate by the `ROTATE_POS_Y` quarter turns, `angle` times, within the
    /// local space of `self`.
    pub fn local_rotate_pos_y(self, angle: i8) -> (r: Self)
        ensures
            r == Rot::quarter_turn_y().pow(quarter(angle) as nat).spec_rotate_by(self),
    {
        self.local_rotate_by(Self::ROTATE_POS_Y().get(angle))
    }

    /// Rotate by the `ROTATE_POS_Y_CW` quarter turns, `angle` times, within the
    /// local space of `self`.
    pub fn local_rotate_pos_y_cw(self, angle: i8) -> (r: Self)
        ensures
            r == Rot::quarter_turn_y().spec_invert().pow(quarter(angle) as nat).spec_rotate_by(self),
    {
        self.local_rotate_by(Self::ROTATE_POS_Y_CW().get(angle))
    }

    /// Rotate by the `ROTATE_POS_Y_CCW` quarter turns, `angle` times, within the
    /// local space of `self`.
    pub fn local_rotate_pos_y_ccw(self, angle: i8) -> (r: Self)
        ensures
            r == Rot::quarter_turn_y().pow(quarter(angle) as nat).spec_rotate_by(self),
    {
        self.local_rotate_by(Self::ROTATE_POS_Y_CCW().get(angle))
    }

    /// Rotate by the `ROTATE_Z` quarter turns, `angle` times.
    pub fn rotate_z(self, angle: i8) -> (r: Self)
        ensures
            r == self.spec_rotate_by(Rot::quarter_turn_z().pow(quarter(angle) as nat)),
    {
        self.rotate_by(Self::ROTATE_Z().get(angle))
    }

    /// Rotate by the `ROTATE_Z_CW` quarter turns, `angle` times.
    pub fn rotate_z_cw(self, angle: i8) -> (r: Self)
        ensures
            r == self.spec_rotate_by(Rot::quarter_turn_z().spec_invert().pow(quarter(angle) as nat)),
    {
        self.rotate_by(Self::ROTATE_Z_CW().get(angle))
    }

    /// Rotate by the `ROTATE_Z_CCW` quarter turns, `angle` times.
    pub fn rotate_z_ccw(self, angle: i8) -> (r: Self)
        ensures
            r == self.spec_rotate_by(Rot::quarter_turn_z().pow(quarter(angle) as nat)),
    {
        self.rotate_by(Self::ROTATE_Z_CCW().get(angle))
    }

    /// Rotate by the `ROTATE_NEG_Z` quarter turns, `angle` times.
    pub fn rotate_neg_z(self, angle: i8) -> (r: Self)
        ensures
            r == self.spec_rotate_by(Rot::quarter_turn_z().spec_invert().pow(quarter(angle) as nat)),
    {
        self.rotate_by(Self::ROTATE_NEG_Z().get(angle))
    }

    /// Rotate by the `ROTATE_NEG_Z_CW` quarter turns, `angle` times.
    pub fn rotate_neg_z_cw(self, angle: i8) -> (r: Self)
        ensures
            r == self.spec_rotate_by(Rot::quarter_turn_z().pow(quarter(angle) as nat)),
    {
        self.rotate_by(Self::ROTATE_NEG_Z_CW().get(angle))
    }

    /// Rotate by the `ROTATE_NEG_Z_CCW` quarter turns, `angle` times.
    pub fn rotate_neg_z_ccw(self, angle: i8) -> (r: Self)
        ensures
            r == self.spec_rotate_by(Rot::quarter_turn_z().spec_invert().pow(quarter(angle) as nat)),
    {
        self.rotate_by(Self::ROTATE_NEG_Z_CCW().get(angle))
    }

    /// Rotate by the `ROTATE_POS_Z` quarter turns, `angle` times.
    pub fn rotate_pos_z(self, angle: i8) -> (r: Self)
        ensures
            r == self.spec_rotate_by(Rot::quarter_turn_z().pow(quarter(angle) as nat)),
    {
        self.rotate_by(Self::ROTATE_POS_Z().get(angle))
    }

    /// Rotate by the `ROTATE_POS_Z_CW` quarter turns, `angle` times.
    pub fn rotate_pos_z_cw(self, angle: i8) -> (r: Self)
        ensures
            r == self.spec_rotate_by(Rot::quarter_turn_z().spec_invert().pow(quarter(angle) as nat)),
    {
        self.rotate_by(Self::ROTATE_POS_Z_CW().get(angle))
    }

    /// Rotate by the `ROTATE_POS_Z_CCW` quarter turns, `angle` times.
    pub fn rotate_pos_z_ccw(self, angle: i8) -> (r: Self)
        ensures
            r == self.spec_rotate_by(Rot::quarter_turn_z().pow(quarter(angle) as nat)),
    {
        self.rotate_by(Self::ROTATE_POS_Z_CCW().get(angle))
    }

    /// Rotate by the `ROTATE_Z` quarter turns, `angle` times, within the
    /// local space of `self`.
    pub fn local_rotate_z(self, angle: i8) -> (r: Self)
        ensures
            r == Rot::quarter_turn_z().pow(quarter(angle) as nat).spec_rotate_by(self),
    {
        self.local_rotate_by(Self::ROTATE_Z().get(angle))
    }

    /// Rotate by the `ROTATE_Z_CW` quarter turns, `angle` times, within the
    /// local space of `self`.
    pub fn local_rotate_z_cw(self, angle: i8) -> (r: Self)
        ensures
            r == Rot::quarter_turn_z().spec_invert().pow(quarter(angle) as nat).spec_rotate_by(self),
    {
        self.local_rotate_by(Self::ROTATE_Z_CW().get(angle))
    }

    /// Rotate by the `ROTATE_Z_CCW` quarter turns, `angle` times, within the
    /// local space of `self`.
    pub fn local_rotate_z_ccw(self, angle: i8) -> (r: Self)
        ensures
            r == Rot::quarter_turn_z().pow(quarter(angle) as nat).spec_rotate_by(self),
    {
        self.local_rotate_by(Self::ROTATE_Z_CCW().get(angle))
    }

    /// Rotate by the `ROTATE_NEG_Z` quarter turns, `angle` times, within the
    /// local space of `self`.
    pub fn local_rotate_neg_z(self, angle: i8) -> (r: Self)
        ensures
            r == Rot::quarter_turn_z().spec_invert().pow(quarter(angle) as nat).spec_rotate_by(self),
    {
        self.local_rotate_by(Self::ROTATE_NEG_Z().get(angle))
    }

    /// Rotate by the `ROTATE_NEG_Z_CW` quarter turns, `angle` times, within the
    /// local space of `self`.
    pub fn local_rotate_neg_z_cw(self, angle: i8) -> (r: Self)
        ensures
            r == Rot::quarter_turn_z().pow(quarter(angle) as nat).spec_rotate_by(self),
    {
        self.local_rotate_by(Self::ROTATE_NEG_Z_CW().get(angle))
    }

    /// Rotate by the `ROTATE_NEG_Z_CCW` quarter turns, `angle` times, within the
    /// local space of `self`.
    pub fn local_rotate_neg_z_ccw(self, angle: i8) -> (r: Self)
        ensures
            r == Rot::quarter_turn_z().spec_invert().pow(quarter(angle) as nat).spec_rotate_by(self),
    {
        self.local_rotate_by(Self::ROTATE_NEG_Z_CCW().get(angle))
    }

    /// Rotate by the `ROTATE_POS_Z` quarter turns, `angle` times, within the
    /// local space of `self`.
    pub fn local_rotate_pos_z(self, angle: i8) -> (r: Self)
        ensures
            r == Rot::quarter_turn_z().pow(quarter(angle) as nat).spec_rotate_by(self),
    {
        self.local_rotate_by(Self::ROTATE_POS_Z().get(angle))
    }

    /// Rotate by the `ROTATE_POS_Z_CW` quarter turns, `angle` times, within the
    /// local space of `self`.
    pub fn local_rotate_pos_z_cw(self, angle: i8) -> (r: Self)
        ensures
            r == Rot::quarter_turn_z().spec_invert().pow(quarter(angle) as nat).spec_rotate_by(self),
    {
        self.local_rotate_by(Self::ROTATE_POS_Z_CW().get(angle))
    }

    /// Rotate by the `ROTATE_POS_Z_CCW` quarter turns, `angle` times, within the
    /// local space of `self`.
    pub fn local_rotate_pos_z_ccw(self, angle: i8) -> (r: Self)
        ensures
            r == Rot::quarter_turn_z().pow(quarter(angle) as nat).spec_rotate_by(self),
    {
        self.local_rotate_by(Self::ROTATE_POS_Z_CCW().get(angle))
    }
    /// Determines if any of the rotated axes are orthogonal to itself
    /// (the `X` axis or the `Y` axis is moved onto another axis).
    pub fn is_orthogonal(self) -> (r: bool)
        ensures
            r == self.spec_is_orthogonal(),
    {
        let mut bits = RotTableBits::empty();
        let mut it = Rot::iter();
        loop
            invariant
                0 <= it.position() <= 24,
                forall|q: Rot| #[trigger]
                    bits.has(q) == (q.spec_as_u8() < it.position() && q.spec_is_orthogonal()),
            ensures
                it.position() == 24,
                forall|q: Rot| #[trigger]
                    bits.has(q) == (q.spec_as_u8() < it.position() && q.spec_is_orthogonal()),
            decreases 24 - it.position(),
        {
            let rot = match it.next() {
                Some(rot) => rot,
                None => break,
            };
            if rot.pos_x_dest().axis().is_orthogonal_to(Axis::X) || rot.pos_y_dest().axis().is_orthogonal_to(
                Axis::Y,
            ) {
                bits.set(rot, true);
            }
            proof {
                lemma_code_bound(rot);
                lemma_code_inj(rot);
            }
        }
        proof {
            lemma_code_bound(self);
        }
        bits.get(self)
    }

    /// Iterate rotations in the order of their numbers.
    pub fn iter() -> (r: RotIter)
        ensures
            r.position() == 0,
    {
        RotIter::new()
    }

    /// Ordered iteration over all tuples of `PRODUCTS` rotations.
    ///
    /// Elements on the right side increase before elements on
    /// the left side, much like how numbers increase.
    pub fn cartesian_product<const PRODUCTS: usize>() -> (r: CartesianRotIter<PRODUCTS>)
        ensures
            forall|i: int| 0 <= i < PRODUCTS ==> #[trigger] r.digits()[i] == 0,
            r.digits().len() == PRODUCTS,
    {
        CartesianRotIter::new()
    }

    /// Whether the rotation moves the `X` axis or the `Y` axis onto
    /// another axis.
    pub open spec fn spec_is_orthogonal(self) -> bool {
        self.spec_face_dest(Face::PosX).spec_axis() != Axis::X || self.spec_face_dest(
            Face::PosY,
        ).spec_axis() != Axis::Y
    }


    /// The counter-clockwise quarter turn about the `X` axis: it keeps
    /// [Face::PosX] in place and carries the Up of [Face::PosX] to its Left.
    pub open spec fn quarter_turn_x() -> Rot {
        Rot::PZ0
    }

    /// The counter-clockwise quarter turn about the `Y` axis: it keeps
    /// [Face::PosY] in place and carries the Up of [Face::PosY] to its Left.
    pub open spec fn quarter_turn_y() -> Rot {
        Rot::PY1
    }

    /// The counter-clockwise quarter turn about the `Z` axis: it keeps
    /// [Face::PosZ] in place and carries the Up of [Face::PosZ] to its Left.
    pub open spec fn quarter_turn_z() -> Rot {
        Rot::NX1
    }
    /// The face that a rotation carries to `face` (the inverse of
    /// [Rot::spec_face_dest]). With `u` and `w` the images of Up and
    /// Forward, the images of the six faces are `u`, `-u`, `w`, `-w`,
    /// `w x u` (Right) and `u x w` (Left).
    pub open spec fn spec_face_src(self, face: Face) -> Face {
        let u = self.spec_face_dest(Face::UP);
        let w = self.spec_face_dest(Face::FORWARD);
        if face == u {
            Face::UP
        } else if face == u.spec_invert() {
            Face::DOWN
        } else if face == w {
            Face::FORWARD
        } else if face == w.spec_invert() {
            Face::BACKWARD
        } else if face == cross(w, u) {
            Face::RIGHT
        } else {
            Face::LEFT
        }
    }

    /// The rotation that carries Up to `up` and Forward to `forward`,
    /// if there is one (that is, if the two faces are orthogonal).
    pub open spec fn spec_from_up_and_forward(up: Face, forward: Face) -> Option<Rot> {
        if up.up_turned(0) == forward {
            Some(Rot::make(up, 0))
        } else if up.up_turned(1) == forward {
            Some(Rot::make(up, 1))
        } else if up.up_turned(2) == forward {
            Some(Rot::make(up, 2))
        } else if up.up_turned(3) == forward {
            Some(Rot::make(up, 3))
        } else {
            None
        }
    }

    /// `self` followed by `rotation`.
    #[verifier::opaque]
    pub open spec fn spec_rotate_by(self, rotation: Rot) -> Rot {
        Rot::spec_from_up_and_forward(
            rotation.spec_face_dest(self.spec_face_dest(Face::UP)),
            rotation.spec_face_dest(self.spec_face_dest(Face::FORWARD)),
        ).unwrap()
    }

    /// `self` followed by the inverse of `rotation`.
    #[verifier::opaque]
    pub open spec fn spec_rotate_by_inverse(self, rotation: Rot) -> Rot {
        Rot::spec_from_up_and_forward(
            rotation.spec_face_src(self.spec_face_dest(Face::UP)),
            rotation.spec_face_src(self.spec_face_dest(Face::FORWARD)),
        ).unwrap()
    }

    /// The rotation that undoes `self`.
    pub open spec fn spec_invert(self) -> Rot {
        Rot::IDENTITY.spec_rotate_by_inverse(self)
    }

    /// `face` carried by `self` `n` times over.
    pub open spec fn dest_iter(self, n: nat, face: Face) -> Face
        decreases n,
    {
        if n == 0 {
            face
        } else {
            self.spec_face_dest(self.dest_iter((n - 1) as nat, face))
        }
    }

    /// `self` applied `n` times.
    #[verifier::opaque]
    pub open spec fn pow(self, n: nat) -> Rot
        decreases n,
    {
        if n == 0 {
            Rot::IDENTITY
        } else {
            self.pow((n - 1) as nat).spec_rotate_by(self)
        }
    }

    /// The least `n >= 1` with `self.pow(n) == IDENTITY` (every rotation
    /// has one of at most 4).
    pub open spec fn cycle_len(self) -> nat {
        if self.pow(1) == Rot::IDENTITY {
            1
        } else if self.pow(2) == Rot::IDENTITY {
            2
        } else if self.pow(3) == Rot::IDENTITY {
            3
        } else {
            4
        }
    }

}

} // verus!


verus! {

// --- GEOMETRY OF THE ROTATIONS ---
/// A rotation carries each face to the image of the frame of its Up and
/// Forward images.
pub proof fn lemma_dest_frame(r: Rot, f: Face)
    ensures
        r.spec_face_dest(f) == frame(r.spec_face_dest(Face::UP), r.spec_face_dest(Face::FORWARD), f),
{
}

/// A rotation carries opposite faces to opposite faces.
pub proof fn lemma_dest_invert(r: Rot, f: Face)
    ensures
        r.spec_face_dest(f.spec_invert()) == r.spec_face_dest(f).spec_invert(),
{
}

/// A rotation keeps cross products of face normals.
pub proof fn lemma_dest_cross(r: Rot, a: Face, b: Face)
    requires
        orthogonal(a, b),
    ensures
        r.spec_face_dest(cross(a, b)) == cross(r.spec_face_dest(a), r.spec_face_dest(b)),
{
}

/// A rotation carries orthogonal faces to orthogonal faces.
pub proof fn lemma_dest_orthogonal(r: Rot, a: Face, b: Face)
    ensures
        orthogonal(a, b) == orthogonal(r.spec_face_dest(a), r.spec_face_dest(b)),
{
}

/// [Rot::spec_face_src] undoes [Rot::spec_face_dest], and the other way round.
pub proof fn lemma_src_dest(r: Rot, f: Face)
    ensures
        r.spec_face_src(r.spec_face_dest(f)) == f,
        r.spec_face_dest(r.spec_face_src(f)) == f,
{
}

/// There is a rotation for each pair of orthogonal Up and Forward images,
/// and only for those.
pub proof fn lemma_from_up_and_forward(u: Face, w: Face)
    ensures
        Rot::spec_from_up_and_forward(u, w) is Some <==> orthogonal(u, w),
        Rot::spec_from_up_and_forward(u, w) is Some ==> {
            let c = Rot::spec_from_up_and_forward(u, w)->0;
            c.spec_face_dest(Face::UP) == u && c.spec_face_dest(Face::FORWARD) == w
        },
{
}

/// A rotation is determined by the images of Up and Forward.
pub proof fn lemma_determined_by_up_forward(a: Rot, b: Rot)
    requires
        a.spec_face_dest(Face::UP) == b.spec_face_dest(Face::UP),
        a.spec_face_dest(Face::FORWARD) == b.spec_face_dest(Face::FORWARD),
    ensures
        a == b,
{
}

} // verus!

verus! {

/// [Rot::spec_face_src] carries opposite faces to opposite faces.
pub proof fn lemma_src_invert(r: Rot, f: Face)
    ensures
        r.spec_face_src(f.spec_invert()) == r.spec_face_src(f).spec_invert(),
{
}

/// [Rot::spec_face_src] keeps cross products of face normals.
pub proof fn lemma_src_cross(r: Rot, a: Face, b: Face)
    requires
        orthogonal(a, b),
    ensures
        r.spec_face_src(cross(a, b)) == cross(r.spec_face_src(a), r.spec_face_src(b)),
{
}

/// [Rot::spec_face_src] carries orthogonal faces to orthogonal faces.
pub proof fn lemma_src_orthogonal(r: Rot, a: Face, b: Face)
    ensures
        orthogonal(a, b) == orthogonal(r.spec_face_src(a), r.spec_face_src(b)),
{
}

/// Up and Forward are orthogonal.
pub proof fn lemma_up_forward_orthogonal()
    ensures
        orthogonal(Face::UP, Face::FORWARD),
{
}

/// `rotate_by` composes the face maps: first `a`, then `b`.
pub proof fn lemma_rotate_by_dest(a: Rot, b: Rot, f: Face)
    ensures
        a.spec_rotate_by(b).spec_face_dest(f) == b.spec_face_dest(a.spec_face_dest(f)),
{
    reveal(Rot::spec_rotate_by);
    let u = a.spec_face_dest(Face::UP);
    let w = a.spec_face_dest(Face::FORWARD);
    lemma_up_forward_orthogonal();
    lemma_dest_orthogonal(a, Face::UP, Face::FORWARD);
    lemma_dest_orthogonal(b, u, w);
    let bu = b.spec_face_dest(u);
    let bw = b.spec_face_dest(w);
    lemma_from_up_and_forward(bu, bw);
    let c = a.spec_rotate_by(b);
    lemma_dest_frame(c, f);
    lemma_dest_frame(a, f);
    lemma_dest_invert(b, u);
    lemma_dest_invert(b, w);
    lemma_dest_cross(b, w, u);
    lemma_dest_cross(b, u, w);
}

/// `rotate_by_inverse` composes the face maps: first `a`, then the
/// inverse map of `b`.
pub proof fn lemma_rotate_by_inverse_dest(a: Rot, b: Rot, f: Face)
    ensures
        a.spec_rotate_by_inverse(b).spec_face_dest(f) == b.spec_face_src(a.spec_face_dest(f)),
{
    reveal(Rot::spec_rotate_by_inverse);
    let u = a.spec_face_dest(Face::UP);
    let w = a.spec_face_dest(Face::FORWARD);
    lemma_up_forward_orthogonal();
    lemma_dest_orthogonal(a, Face::UP, Face::FORWARD);
    lemma_src_orthogonal(b, u, w);
    let bu = b.spec_face_src(u);
    let bw = b.spec_face_src(w);
    lemma_from_up_and_forward(bu, bw);
    let c = a.spec_rotate_by_inverse(b);
    lemma_dest_frame(c, f);
    lemma_dest_frame(a, f);
    lemma_src_invert(b, u);
    lemma_src_invert(b, w);
    lemma_src_cross(b, w, u);
    lemma_src_cross(b, u, w);
}

/// Two rotations with the same face map are equal.
pub proof fn lemma_ext(a: Rot, b: Rot)
    requires
        forall|f: Face| #[trigger] a.spec_face_dest(f) == b.spec_face_dest(f),
    ensures
        a == b,
{
    assert(a.spec_face_dest(Face::UP) == b.spec_face_dest(Face::UP));
    assert(a.spec_face_dest(Face::FORWARD) == b.spec_face_dest(Face::FORWARD));
    lemma_determined_by_up_forward(a, b);
}

/// The identity leaves every face in place.
pub proof fn lemma_identity_dest(f: Face)
    ensures
        Rot::IDENTITY.spec_face_dest(f) == f,
        Rot::IDENTITY.spec_face_src(f) == f,
{
}

/// The inverse rotation carries each face to its source.
pub proof fn lemma_invert_dest(r: Rot, f: Face)
    ensures
        r.spec_invert().spec_face_dest(f) == r.spec_face_src(f),
{
    lemma_rotate_by_inverse_dest(Rot::IDENTITY, r, f);
    lemma_identity_dest(f);
}

// --- LAWS ---
/// Rotating is associative: rotating by `b` and then by `c` is the same
/// as rotating by the combined rotation `b.rotate_by(c)`.
pub proof fn law_rotate_by_associative(a: Rot, b: Rot, c: Rot)
    ensures
        a.spec_rotate_by(b).spec_rotate_by(c) == a.spec_rotate_by(b.spec_rotate_by(c)),
{
    assert forall|f: Face| #[trigger]
        a.spec_rotate_by(b).spec_rotate_by(c).spec_face_dest(f) == a.spec_rotate_by(
            b.spec_rotate_by(c),
        ).spec_face_dest(f) by {
        lemma_rotate_by_dest(a.spec_rotate_by(b), c, f);
        lemma_rotate_by_dest(a, b, f);
        lemma_rotate_by_dest(a, b.spec_rotate_by(c), f);
        lemma_rotate_by_dest(b, c, a.spec_face_dest(f));
    }
    lemma_ext(a.spec_rotate_by(b).spec_rotate_by(c), a.spec_rotate_by(b.spec_rotate_by(c)));
}

/// The identity is neutral on both sides of `rotate_by`.
pub proof fn law_rotate_by_identity(a: Rot)
    ensures
        a.spec_rotate_by(Rot::IDENTITY) == a,
        Rot::IDENTITY.spec_rotate_by(a) == a,
{
    assert forall|f: Face| #[trigger] a.spec_rotate_by(Rot::IDENTITY).spec_face_dest(f)
        == a.spec_face_dest(f) by {
        lemma_rotate_by_dest(a, Rot::IDENTITY, f);
        lemma_identity_dest(a.spec_face_dest(f));
    }
    lemma_ext(a.spec_rotate_by(Rot::IDENTITY), a);
    assert forall|f: Face| #[trigger] Rot::IDENTITY.spec_rotate_by(a).spec_face_dest(f)
        == a.spec_face_dest(f) by {
        lemma_rotate_by_dest(Rot::IDENTITY, a, f);
        lemma_identity_dest(f);
    }
    lemma_ext(Rot::IDENTITY.spec_rotate_by(a), a);
}

/// A face carried by a rotation is brought back by its source map, and
/// the other way round.
pub proof fn law_face_round_trip(r: Rot, f: Face)
    ensures
        r.spec_face_src(r.spec_face_dest(f)) == f,
        r.spec_face_dest(r.spec_face_src(f)) == f,
{
    lemma_src_dest(r, f);
}

/// The inverse undoes a rotation, on either side.
pub proof fn law_invert(a: Rot)
    ensures
        a.spec_invert().spec_rotate_by(a) == Rot::IDENTITY,
        a.spec_rotate_by(a.spec_invert()) == Rot::IDENTITY,
        a.spec_invert().spec_invert() == a,
{
    assert forall|f: Face| #[trigger] a.spec_invert().spec_rotate_by(a).spec_face_dest(f)
        == Rot::IDENTITY.spec_face_dest(f) by {
        lemma_rotate_by_dest(a.spec_invert(), a, f);
        lemma_invert_dest(a, f);
        lemma_src_dest(a, f);
        lemma_identity_dest(f);
    }
    lemma_ext(a.spec_invert().spec_rotate_by(a), Rot::IDENTITY);
    assert forall|f: Face| #[trigger] a.spec_rotate_by(a.spec_invert()).spec_face_dest(f)
        == Rot::IDENTITY.spec_face_dest(f) by {
        lemma_rotate_by_dest(a, a.spec_invert(), f);
        lemma_invert_dest(a, a.spec_face_dest(f));
        lemma_src_dest(a, f);
        lemma_identity_dest(f);
    }
    lemma_ext(a.spec_rotate_by(a.spec_invert()), Rot::IDENTITY);
    assert forall|f: Face| #[trigger] a.spec_invert().spec_invert().spec_face_dest(f)
        == a.spec_face_dest(f) by {
        lemma_invert_dest(a.spec_invert(), f);
        lemma_invert_dest(a, a.spec_face_dest(f));
        lemma_src_dest(a, f);
        lemma_src_dest(a.spec_invert(), f);
        lemma_invert_dest(a, a.spec_invert().spec_face_src(f));
    }
    lemma_ext(a.spec_invert().spec_invert(), a);
}

/// Rotating by the inverse of `b` is rotating by `b.invert()`, and it
/// undoes a rotation by `b`.
pub proof fn law_rotate_by_inverse(a: Rot, b: Rot)
    ensures
        a.spec_rotate_by_inverse(b) == a.spec_rotate_by(b.spec_invert()),
        a.spec_rotate_by(b).spec_rotate_by_inverse(b) == a,
        a.spec_rotate_by_inverse(b).spec_rotate_by(b) == a,
{
    assert forall|f: Face| #[trigger] a.spec_rotate_by_inverse(b).spec_face_dest(f)
        == a.spec_rotate_by(b.spec_invert()).spec_face_dest(f) by {
        lemma_rotate_by_inverse_dest(a, b, f);
        lemma_rotate_by_dest(a, b.spec_invert(), f);
        lemma_invert_dest(b, a.spec_face_dest(f));
    }
    lemma_ext(a.spec_rotate_by_inverse(b), a.spec_rotate_by(b.spec_invert()));
    assert forall|f: Face| #[trigger] a.spec_rotate_by(b).spec_rotate_by_inverse(b).spec_face_dest(
        f,
    ) == a.spec_face_dest(f) by {
        lemma_rotate_by_inverse_dest(a.spec_rotate_by(b), b, f);
        lemma_rotate_by_dest(a, b, f);
        lemma_src_dest(b, a.spec_face_dest(f));
    }
    lemma_ext(a.spec_rotate_by(b).spec_rotate_by_inverse(b), a);
    assert forall|f: Face| #[trigger] a.spec_rotate_by_inverse(b).spec_rotate_by(b).spec_face_dest(
        f,
    ) == a.spec_face_dest(f) by {
        lemma_rotate_by_dest(a.spec_rotate_by_inverse(b), b, f);
        lemma_rotate_by_inverse_dest(a, b, f);
        lemma_src_dest(b, a.spec_face_dest(f));
    }
    lemma_ext(a.spec_rotate_by_inverse(b).spec_rotate_by(b), a);
}

} // verus!

verus! {

/// The first power of a rotation is the rotation itself.
pub proof fn lemma_pow_one(r: Rot)
    ensures
        r.pow(1) == r,
{
    reveal_with_fuel(Rot::pow, 2);
    law_rotate_by_identity(r);
}

/// `dest_iter(n, f)` is `face_dest` applied `n` times to `f`.
pub proof fn lemma_pow_dest(r: Rot, n: nat, f: Face)
    ensures
        r.pow(n).spec_face_dest(f) == r.dest_iter(n, f),
    decreases n,
{
    reveal(Rot::pow);
    if n == 0 {
        lemma_identity_dest(f);
    } else {
        lemma_pow_dest(r, (n - 1) as nat, f);
        lemma_rotate_by_dest(r.pow((n - 1) as nat), r, f);
    }
}

/// A power of a rotation is the identity exactly when its face map is.
pub proof fn lemma_pow_identity(r: Rot, n: nat)
    ensures
        (r.pow(n) == Rot::IDENTITY) <==> (forall|f: Face| #[trigger] r.dest_iter(n, f) == f),
{
    if r.pow(n) == Rot::IDENTITY {
        assert forall|f: Face| #[trigger] r.dest_iter(n, f) == f by {
            lemma_pow_dest(r, n, f);
            lemma_identity_dest(f);
        }
    }
    if forall|f: Face| #[trigger] r.dest_iter(n, f) == f {
        assert forall|f: Face| #[trigger] r.pow(n).spec_face_dest(f) == Rot::IDENTITY.spec_face_dest(
            f,
        ) by {
            lemma_pow_dest(r, n, f);
            lemma_identity_dest(f);
        }
        lemma_ext(r.pow(n), Rot::IDENTITY);
    }
}

/// Every face map of a rotation comes back to the identity after 3 or 4
/// steps.
proof fn lemma_dest_iter_small(r: Rot)
    ensures
        (forall|f: Face| #[trigger] r.dest_iter(3, f) == f) || (forall|f: Face| #[trigger]
            r.dest_iter(4, f) == f),
{
    reveal_with_fuel(Rot::dest_iter, 5);
}

/// Every rotation returns to the identity after [Rot::cycle_len] steps,
/// which is between 1 and 4.
pub proof fn law_cycle_len(r: Rot)
    ensures
        1 <= r.cycle_len() <= 4,
        r.pow(r.cycle_len()) == Rot::IDENTITY,
        forall|j: nat| 1 <= j < r.cycle_len() ==> r.pow(j) != Rot::IDENTITY,
{
    lemma_dest_iter_small(r);
    lemma_pow_identity(r, 1);
    lemma_pow_identity(r, 2);
    lemma_pow_identity(r, 3);
    lemma_pow_identity(r, 4);
}

/// One more step of [Rot::pow].
pub proof fn lemma_pow_succ(r: Rot, n: nat)
    ensures
        r.pow(n + 1) == r.pow(n).spec_rotate_by(r),
        r.pow(0) == Rot::IDENTITY,
{
    reveal_with_fuel(Rot::pow, 2);
}

/// [Rot::spec_face_src] applied `n` times.
pub open spec fn src_iter(r: Rot, n: nat, face: Face) -> Face
    decreases n,
{
    if n == 0 {
        face
    } else {
        r.spec_face_src(src_iter(r, (n - 1) as nat, face))
    }
}

/// One step of [Rot::dest_iter] can be taken first.
proof fn lemma_dest_iter_shift(r: Rot, n: nat, x: Face)
    ensures
        r.dest_iter(n + 1, x) == r.dest_iter(n, r.spec_face_dest(x)),
    decreases n,
{
    reveal_with_fuel(Rot::dest_iter, 2);
    if n > 0 {
        lemma_dest_iter_shift(r, (n - 1) as nat, x);
    }
}

/// Iterating the face map undoes iterating the source map.
proof fn lemma_dest_src_iter(r: Rot, n: nat, f: Face)
    ensures
        r.dest_iter(n, src_iter(r, n, f)) == f,
    decreases n,
{
    if n > 0 {
        let y = src_iter(r, n, f);
        lemma_dest_iter_shift(r, (n - 1) as nat, y);
        lemma_src_dest(r, src_iter(r, (n - 1) as nat, f));
        lemma_dest_src_iter(r, (n - 1) as nat, f);
    }
}

/// Iterating the inverse is iterating the source map.
proof fn lemma_invert_dest_iter(r: Rot, n: nat, f: Face)
    ensures
        r.spec_invert().dest_iter(n, f) == src_iter(r, n, f),
    decreases n,
{
    if n > 0 {
        lemma_invert_dest_iter(r, (n - 1) as nat, f);
        lemma_invert_dest(r, src_iter(r, (n - 1) as nat, f));
    }
}

/// The powers of the inverse are the inverses of the powers.
pub proof fn lemma_invert_pow(r: Rot, n: nat)
    ensures
        r.spec_invert().pow(n) == r.pow(n).spec_invert(),
{
    let v = r.spec_invert();
    assert forall|f: Face| #[trigger] v.pow(n).spec_face_dest(f) == r.pow(n).spec_invert().spec_face_dest(
        f,
    ) by {
        lemma_pow_dest(v, n, f);
        lemma_invert_dest_iter(r, n, f);
        lemma_invert_dest(r.pow(n), f);
        lemma_pow_dest(r, n, src_iter(r, n, f));
        lemma_dest_src_iter(r, n, f);
        lemma_src_dest(r.pow(n), src_iter(r, n, f));
    }
    lemma_ext(v.pow(n), r.pow(n).spec_invert());
}

/// A rotation is the identity exactly when its inverse is.
proof fn lemma_invert_is_identity(a: Rot)
    ensures
        (a.spec_invert() == Rot::IDENTITY) <==> (a == Rot::IDENTITY),
{
    law_invert(a);
    law_invert(Rot::IDENTITY);
    law_rotate_by_identity(Rot::IDENTITY.spec_invert());
}

/// A rotation and its inverse have the same cycle length.
pub proof fn law_invert_cycle_len(r: Rot)
    ensures
        r.spec_invert().cycle_len() == r.cycle_len(),
{
    let v = r.spec_invert();
    lemma_invert_pow(r, 1);
    lemma_invert_pow(r, 2);
    lemma_invert_pow(r, 3);
    lemma_invert_is_identity(r.pow(1));
    lemma_invert_is_identity(r.pow(2));
    lemma_invert_is_identity(r.pow(3));
}

/// A face and its Up face are orthogonal.
pub proof fn lemma_up_orthogonal(f: Face)
    ensures
        orthogonal(f, f.spec_up()),
        orthogonal(f, f.spec_left()),
{
}

/// The faces orthogonal to `f` are the four turned Up faces of `f`.
pub proof fn lemma_orthogonal_is_turned_up(f: Face, g: Face)
    requires
        orthogonal(f, g),
    ensures
        g == f.up_turned(0) || g == f.up_turned(1) || g == f.up_turned(2) || g == f.up_turned(3),
{
}

/// The quarter turns about `+X`, `+Y` and `+Z` keep their face in place,
/// carry the Up of that face to its Left, and have cycle length 4.
pub proof fn law_quarter_turns()
    ensures
        Rot::quarter_turn_x().spec_face_dest(Face::PosX) == Face::PosX,
        Rot::quarter_turn_x().spec_face_dest(Face::PosX.spec_up()) == Face::PosX.spec_left(),
        Rot::quarter_turn_y().spec_face_dest(Face::PosY) == Face::PosY,
        Rot::quarter_turn_y().spec_face_dest(Face::PosY.spec_up()) == Face::PosY.spec_left(),
        Rot::quarter_turn_z().spec_face_dest(Face::PosZ) == Face::PosZ,
        Rot::quarter_turn_z().spec_face_dest(Face::PosZ.spec_up()) == Face::PosZ.spec_left(),
        Rot::quarter_turn_x().cycle_len() == 4,
        Rot::quarter_turn_y().cycle_len() == 4,
        Rot::quarter_turn_z().cycle_len() == 4,
{
    reveal_with_fuel(Rot::dest_iter, 4);
    let qx = Rot::quarter_turn_x();
    let qy = Rot::quarter_turn_y();
    let qz = Rot::quarter_turn_z();
    lemma_pow_identity(qx, 1);
    lemma_pow_identity(qx, 2);
    lemma_pow_identity(qx, 3);
    lemma_pow_identity(qy, 1);
    lemma_pow_identity(qy, 2);
    lemma_pow_identity(qy, 3);
    lemma_pow_identity(qz, 1);
    lemma_pow_identity(qz, 2);
    lemma_pow_identity(qz, 3);
    assert(qx.dest_iter(1, Face::PosY) != Face::PosY);
    assert(qx.dest_iter(2, Face::PosY) != Face::PosY);
    assert(qx.dest_iter(3, Face::PosY) != Face::PosY);
    assert(qy.dest_iter(1, Face::PosX) != Face::PosX);
    assert(qy.dest_iter(2, Face::PosX) != Face::PosX);
    assert(qy.dest_iter(3, Face::PosX) != Face::PosX);
    assert(qz.dest_iter(1, Face::PosX) != Face::PosX);
    assert(qz.dest_iter(2, Face::PosX) != Face::PosX);
    assert(qz.dest_iter(3, Face::PosX) != Face::PosX);
}

/// Rotating `a` by `a.diff(b)` gives `b`, and rotating `a` locally by
/// `b` is rotating `a` by the conjugate of `b` by `a`.
pub proof fn law_diff_conjugate(a: Rot, b: Rot)
    ensures
        a.spec_rotate_by(a.spec_invert().spec_rotate_by(b)) == b,
        b.spec_rotate_by(a) == a.spec_rotate_by(a.spec_invert().spec_rotate_by(b).spec_rotate_by(a)),
{
    let v = a.spec_invert();
    law_rotate_by_associative(a, v, b);
    law_invert(a);
    law_rotate_by_identity(b);
    law_rotate_by_associative(a, v.spec_rotate_by(b), a);
    law_rotate_by_identity(b.spec_rotate_by(a));
    law_rotate_by_associative(Rot::IDENTITY, b, a);
}

/// The numbers `0..24` name each rotation exactly once, so [Rot::iter]
/// visits every rotation once.
pub proof fn law_rot_codes(n: int)
    requires
        0 <= n < 24,
    ensures
        Rot::from_code(n).spec_as_u8() == n,
{
}

/// Rotation numbers are below 24.
pub proof fn lemma_code_bound(r: Rot)
    ensures
        r.spec_as_u8() < 24,
        Rot::from_code(r.spec_as_u8() as int) == r,
{
}

/// Different rotations have different numbers.
pub proof fn lemma_code_inj(r: Rot)
    ensures
        forall|q: Rot| #[trigger] q.spec_as_u8() == r.spec_as_u8() ==> q == r,
{
}

} // verus!

verus! {

impl Default for RotIter {
    fn default() -> (r: RotIter)
        ensures
            r.position() == 0,
    {
        RotIter::new()
    }
}

impl Default for Rot {
    fn default() -> (r: Rot)
        ensures
            r == Rot::IDENTITY,
    {
        Rot::IDENTITY
    }
}

/// A lookup table for values associated with each [Rot], indexed by
/// [Rot::as_u8].
#[derive(Clone, Copy)]
pub struct RotTable<T: Copy = Rot>(pub [T; 24]);

impl<T: Copy> RotTable<T> {
    /// The value stored for `rot`.
    pub open spec fn at(self, rot: Rot) -> T {
        self.0@[rot.spec_as_u8() as int]
    }

    /// Create a new [RotTable] from the given array.
    pub fn new(table: [T; 24]) -> (r: Self)
        ensures
            r.0 == table,
    {
        RotTable(table)
    }

    /// Get the value stored for the given `rot`.
    pub fn get(&self, rot: Rot) -> (r: T)
        ensures
            r == self.at(rot),
    {
        self.0[rot.as_u8() as usize]
    }

    /// Set the `value` for the given `rot`.
    pub fn set(&mut self, rot: Rot, value: T)
        ensures
            final(self).0@ == old(self).0@.update(rot.spec_as_u8() as int, value),
    {
        self.0[rot.as_u8() as usize] = value;
    }
}

/// The number of steps after which a rotation returns to the identity.
#[derive(Debug, Clone, Copy, PartialEq, Eq, Structural, PartialOrd, Ord, Hash)]
pub enum RotCycleCount {
    C1,
    C2,
    C3,
    C4,
}

impl RotCycleCount {
    /// The count.
    pub open spec fn spec_count(self) -> nat {
        match self {
            RotCycleCount::C1 => 1,
            RotCycleCount::C2 => 2,
            RotCycleCount::C3 => 3,
            RotCycleCount::C4 => 4,
        }
    }

    /// The cycle count for `count`, which must be between 1 and 4.
    pub fn from_u8_unchecked(count: u8) -> (r: Self)
        requires
            1 <= count <= 4,
        ensures
            r.spec_count() == count,
    {
        match count {
            1 => RotCycleCount::C1,
            2 => RotCycleCount::C2,
            3 => RotCycleCount::C3,
            _ => RotCycleCount::C4,
        }
    }

    /// The cycle count for `count` when it is 1, 2 or 3; [None] otherwise.
    pub fn from_u8(count: u8) -> (r: Option<Self>)
        ensures
            r is Some <==> 1 <= count <= 3,
            r is Some ==> r->0.spec_count() == count,
    {
        if count > 3 || count == 0 {
            return None;
        }
        Some(Self::from_u8_unchecked(count))
    }

    /// The count as a [u8].
    pub fn as_u8(self) -> (r: u8)
        ensures
            r == self.spec_count(),
    {
        match self {
            RotCycleCount::C1 => 1,
            RotCycleCount::C2 => 2,
            RotCycleCount::C3 => 3,
            RotCycleCount::C4 => 4,
        }
    }

    /// The count as a [usize].
    pub fn count(self) -> (r: usize)
        ensures
            r == self.spec_count(),
    {
        self.as_u8() as usize
    }
}

#[derive(Debug, Clone, Copy, PartialEq, Eq, Hash)]
enum RotAnglesKind {
    Identity,
    Binary(Rot),
    Ternary([Rot; 2]),
    Quaternary([Rot; 3]),
}

/// The powers of a rotation, up to the point where they return to the
/// identity.
#[derive(Debug, Clone, Copy, PartialEq, Eq, Hash)]
pub struct RotAngles(RotAnglesKind);

impl RotAngles {
    #[verifier::type_invariant]
    spec fn wf(self) -> bool {
        match self.0 {
            RotAnglesKind::Identity => true,
            RotAnglesKind::Binary(r) => r.cycle_len() == 2,
            RotAnglesKind::Ternary(a) => a[0].cycle_len() == 3 && a[1] == a[0].pow(2),
            RotAnglesKind::Quaternary(a) => a[0].cycle_len() == 4 && a[1] == a[0].pow(2) && a[2]
                == a[0].pow(3),
        }
    }

    /// The rotation whose powers these are.
    pub closed spec fn spec_base(self) -> Rot {
        match self.0 {
            RotAnglesKind::Identity => Rot::IDENTITY,
            RotAnglesKind::Binary(r) => r,
            RotAnglesKind::Ternary(a) => a[0],
            RotAnglesKind::Quaternary(a) => a[0],
        }
    }

    /// The number of distinct powers (the cycle length of the base).
    pub closed spec fn spec_size(self) -> nat {
        match self.0 {
            RotAnglesKind::Identity => 1,
            RotAnglesKind::Binary(_) => 2,
            RotAnglesKind::Ternary(_) => 3,
            RotAnglesKind::Quaternary(_) => 4,
        }
    }

    /// The powers of `rot`.
    pub fn from_rot(rot: Rot) -> (r: Self)
        ensures
            r.spec_base() == rot,
            r.spec_size() == rot.cycle_len(),
    {
        rot.angles()
    }

    /// The rotation whose powers these are.
    pub fn base(self) -> (r: Rot)
        ensures
            r == self.spec_base(),
    {
        match self.0 {
            RotAnglesKind::Identity => Rot::IDENTITY,
            RotAnglesKind::Binary(rot) => rot,
            RotAnglesKind::Ternary(a) => a[0],
            RotAnglesKind::Quaternary(a) => a[0],
        }
    }

    /// The power of the base for `angle`, taken modulo the number of
    /// powers.
    pub fn get(self, angle: i8) -> (r: Rot)
        ensures
            r == self.spec_base().pow(((angle as int) % (self.spec_size() as int)) as nat),
    {
        proof {
            use_type_invariant(&self);
            lemma_pow_succ(self.spec_base(), 0);
            lemma_pow_one(self.spec_base());
        }
        match self.0 {
            RotAnglesKind::Identity => Rot::IDENTITY,
            RotAnglesKind::Binary(rot) => {
                let i: usize = ((angle as i16 + 128) % 2) as usize;
                [Rot::IDENTITY, rot][i]
            },
            RotAnglesKind::Ternary(a) => {
                let i: usize = ((angle as i16 + 129) % 3) as usize;
                [Rot::IDENTITY, a[0], a[1]][i]
            },
            RotAnglesKind::Quaternary(a) => [Rot::IDENTITY, a[0], a[1], a[2]][quarter_index(angle)],
        }
    }

    /// The powers of the inverse of the base.
    pub fn invert(self) -> (r: Self)
        ensures
            r.spec_base() == self.spec_base().spec_invert(),
            r.spec_size() == self.spec_size(),
    {
        proof {
            use_type_invariant(&self);
            law_invert_cycle_len(self.spec_base());
            law_cycle_len(Rot::IDENTITY);
            lemma_pow_one(Rot::IDENTITY);
        }
        let base = self.base();
        Self::from_rot(base.invert())
    }

    /// The number of powers.
    pub fn cycle_count(self) -> (r: RotCycleCount)
        ensures
            r.spec_count() == self.spec_size(),
    {
        match self.0 {
            RotAnglesKind::Identity => RotCycleCount::C1,
            RotAnglesKind::Binary(_) => RotCycleCount::C2,
            RotAnglesKind::Ternary(_) => RotCycleCount::C3,
            RotAnglesKind::Quaternary(_) => RotCycleCount::C4,
        }
    }
}

/// The four quarter-turn powers of a rotation of cycle length 4.
#[derive(Debug, Clone, Copy, PartialEq, Eq, Hash)]
pub struct QuarterTurns([Rot; 4]);

impl QuarterTurns {
    #[verifier::type_invariant]
    spec fn wf(self) -> bool {
        &&& self.0[1].cycle_len() == 4
        &&& self.0[0] == Rot::IDENTITY
        &&& self.0[2] == self.0[1].pow(2)
        &&& self.0[3] == self.0[1].pow(3)
    }

    /// The quarter turn.
    pub closed spec fn spec_base(self) -> Rot {
        self.0[1]
    }

    /// The powers of `rot`, which must have cycle length 4.
    fn build(rot: Rot) -> (r: Self)
        requires
            rot.cycle_len() == 4,
        ensures
            r.spec_base() == rot,
    {
        let next1 = rot.rotate_by(rot);
        let next2 = next1.rotate_by(rot);
        proof {
            lemma_pow_succ(rot, 1);
            lemma_pow_succ(rot, 2);
            lemma_pow_one(rot);
        }
        QuarterTurns([Rot::IDENTITY, rot, next1, next2])
    }

    /// The power of the quarter turn for `angle` (its low two bits).
    pub fn get(self, angle: i8) -> (r: Rot)
        ensures
            r == self.spec_base().pow(quarter(angle) as nat),
    {
        proof {
            use_type_invariant(&self);
            lemma_pow_succ(self.spec_base(), 0);
            lemma_pow_one(self.spec_base());
        }
        self.0[quarter_index(angle)]
    }

    /// The quarter turn.
    pub fn base(self) -> (r: Rot)
        ensures
            r == self.spec_base(),
    {
        self.0[1]
    }

    /// The quarter turns the other way.
    pub fn invert(self) -> (r: Self)
        ensures
            r.spec_base() == self.spec_base().spec_invert(),
    {
        proof {
            use_type_invariant(&self);
            law_invert_cycle_len(self.spec_base());
        }
        Self::build(self.base().invert())
    }
}

/// Represents the conjugacy class of a [Rot].
#[derive(Debug, Clone, Copy, PartialEq, Eq, Structural, Hash)]
pub enum ConjugacyClass {
    /// The Identity class. One element ([Rot::IDENTITY]).
    Identity,
    /// Edge binary. 180 degree rotations for opposing edges. Six elements.
    EdgeBinary,
    /// Face binary. 180 degree rotations about a face. Three elements.
    FaceBinary,
    /// Ternary. 120 degree rotations around a diagonal. Eight elements.
    Ternary,
    /// Quaternary. 90 degree rotations about a face. Six elements.
    Quaternary,
}

/// The conjugacy class of `rot`, from its cycle length and, for the
/// half turns, whether it moves an axis.
pub open spec fn spec_conjugacy_class(rot: Rot) -> ConjugacyClass {
    if rot.cycle_len() == 1 {
        ConjugacyClass::Identity
    } else if rot.cycle_len() == 2 {
        if rot.spec_is_orthogonal() {
            ConjugacyClass::EdgeBinary
        } else {
            ConjugacyClass::FaceBinary
        }
    } else if rot.cycle_len() == 3 {
        ConjugacyClass::Ternary
    } else {
        ConjugacyClass::Quaternary
    }
}

/// Determines the conjugacy class of `rot`.
pub fn determine_conjugacy_class(rot: Rot) -> (r: ConjugacyClass)
    ensures
        r == spec_conjugacy_class(rot),
{
    let cycle_count = rot.cycle_count();
    match cycle_count {
        RotCycleCount::C1 => ConjugacyClass::Identity,
        RotCycleCount::C2 => {
            // Only two axes need to be checked because two axes would be flipped.
            if rot.is_orthogonal() {
                ConjugacyClass::EdgeBinary
            } else {
                ConjugacyClass::FaceBinary
            }
        },
        RotCycleCount::C3 => ConjugacyClass::Ternary,
        RotCycleCount::C4 => ConjugacyClass::Quaternary,
    }
}

/// A set of rotations, as a bitmask.
#[derive(Debug, Clone, Copy, PartialEq, Eq, Structural, PartialOrd, Ord, Hash)]
pub struct RotTableBits(u32);

proof fn lemma_u32_bit_set(x: u32, k: u32, j: u32)
    requires
        k < 32,
        j < 32,
    ensures
        ((x | (1u32 << k)) >> j) & 1 == (if j == k { 1u32 } else { (x >> j) & 1 }),
        ((x & !(1u32 << k)) >> j) & 1 == (if j == k { 0u32 } else { (x >> j) & 1 }),
        (x & (1u32 << k) != 0) == ((x >> k) & 1 == 1),
        (0u32 >> j) & 1 == 0,
{
    assert(((x | (1u32 << k)) >> j) & 1 == (if j == k { 1u32 } else { (x >> j) & 1 }))
        by (bit_vector)
        requires
            k < 32,
            j < 32,
    ;
    assert(((x & !(1u32 << k)) >> j) & 1 == (if j == k { 0u32 } else { (x >> j) & 1 }))
        by (bit_vector)
        requires
            k < 32,
            j < 32,
    ;
    assert((x & (1u32 << k) != 0) == ((x >> k) & 1 == 1)) by (bit_vector)
        requires
            k < 32,
    ;
    assert((0u32 >> j) & 1 == 0) by (bit_vector);
}

impl RotTableBits {
    /// Whether the bit for `rot` is set.
    pub closed spec fn has(self, rot: Rot) -> bool {
        (self.0 >> (rot.spec_as_u8() as u32)) & 1 == 1
    }

    /// A table with no bit set.
    pub(crate) fn empty() -> (r: Self)
        ensures
            forall|q: Rot| !#[trigger] r.has(q),
    {
        let r = RotTableBits(0u32);
        assert forall|q: Rot| !#[trigger] r.has(q) by {
            lemma_u32_bit_set(0, 0, q.spec_as_u8() as u32);
        }
        r
    }

    /// Set the bit `value` for `index`.
    pub fn set(&mut self, index: Rot, value: bool)
        ensures
            forall|q: Rot| #[trigger]
                final(self).has(q) == (if q == index { value } else { old(self).has(q) }),
    {
        let k = index.as_u8() as u32;
        let x = self.0;
        let bit: u32 = 1u32 << k;
        if value {
            self.0 = x | bit;
        } else {
            self.0 = x & !bit;
        }
        proof {
            assert forall|q: Rot| #[trigger]
                self.has(q) == (if q == index { value } else { old(self).has(q) }) by {
                lemma_u32_bit_set(x, k, q.spec_as_u8() as u32);
                lemma_code_inj(index);
            }
        }
    }

    /// Get the bit for `index`.
    pub fn get(self, index: Rot) -> (r: bool)
        ensures
            r == self.has(index),
    {
        let k = index.as_u8() as u32;
        proof {
            lemma_u32_bit_set(self.0, k, k);
        }
        self.0 & (1u32 << k) != 0
    }
}

/// An iterator of each [Rot] in the order of their numbers.
#[derive(Debug, Clone, Hash)]
pub struct RotIter {
    rot: u8,
}

impl RotIter {
    /// How many rotations the iterator has passed.
    pub closed spec fn position(self) -> int {
        self.rot as int
    }

    /// Create a new [RotIter], starting with [Rot::IDENTITY].
    pub fn new() -> (r: Self)
        ensures
            r.position() == 0,
    {
        RotIter { rot: 0 }
    }

    /// Get the current [Rot], unless the iterator is exhausted.
    pub fn current(&self) -> (r: Option<Rot>)
        ensures
            self.position() < 24 ==> r == Some(Rot::from_code(self.position())),
            self.position() >= 24 ==> r is None,
    {
        Rot::from_u8(self.rot)
    }

    /// Continue iteration, returning the current [Rot] in the process.
    pub fn next(&mut self) -> (r: Option<Rot>)
        ensures
            old(self).position() < 24 ==> r == Some(Rot::from_code(old(self).position()))
                && final(self).position() == old(self).position() + 1,
            old(self).position() >= 24 ==> r is None && final(self).position() == old(
                self,
            ).position(),
            r is Some ==> r->0.spec_as_u8() == old(self).position(),
    {
        match self.current() {
            None => None,
            some => {
                self.rot = self.rot + 1;
                some
            },
        }
    }
}

} // verus!

verus! {

/// Ordered iteration over all tuples of `PRODUCTS` [Rot] values, in
/// the manner of an odometer: the last position increases first.
#[derive(Debug)]
pub struct CartesianRotIter<const PRODUCTS: usize> {
    it: [u8; PRODUCTS],
}

impl<const PRODUCTS: usize> CartesianRotIter<PRODUCTS> {
    #[verifier::type_invariant]
    spec fn wf(self) -> bool {
        &&& forall|i: int| 0 < i < PRODUCTS ==> #[trigger] self.it@[i] <= 23
        &&& PRODUCTS > 0 ==> self.it@[0] <= 24
        &&& PRODUCTS > 0 && self.it@[0] > 23 ==> forall|i: int|
            0 < i < PRODUCTS ==> #[trigger] self.it@[i] == 0
    }

    /// How many tuples the iterator has passed: the digits, read as a
    /// number in base 24.
    pub closed spec fn count(self) -> int {
        digits_value(self.it@, 24)
    }

    /// The numbers of the current tuple, one per position.
    pub closed spec fn digits(self) -> Seq<u8> {
        self.it@
    }

    /// Whether every tuple has been visited.
    pub open spec fn exhausted(self) -> bool {
        PRODUCTS == 0 || self.digits()[0] > 23
    }

    /// The current tuple, as values.
    pub open spec fn tuple(self) -> Seq<Rot> {
        Seq::new(PRODUCTS as nat, |i: int| Rot::from_code(self.digits()[i] as int))
    }

    /// Create an iterator that starts with the tuple of lowest numbers.
    pub fn new() -> (r: Self)
        ensures
            r.digits().len() == PRODUCTS,
            forall|i: int| 0 <= i < PRODUCTS ==> #[trigger] r.digits()[i] == 0,
            r.count() == 0,
            PRODUCTS > 0 ==> !r.exhausted(),
    {
        let r = CartesianRotIter { it: [0u8; PRODUCTS] };
        proof {
            lemma_zero_value(r.it@, 24);
        }
        r
    }

    /// The tuple for the given digits.
    fn make_tuple(&self) -> (r: [Rot; PRODUCTS])
        requires
            !self.exhausted(),
        ensures
            r@ == self.tuple(),
    {
        proof {
            use_type_invariant(self);
        }
        let mut out = [Rot::IDENTITY; PRODUCTS];
        let mut i: usize = 0;
        while i < PRODUCTS
            invariant
                i <= PRODUCTS,
                out@.len() == PRODUCTS,
                self.it@.len() == PRODUCTS,
                !self.exhausted(),
                forall|j: int| 0 < j < PRODUCTS ==> #[trigger] self.it@[j] <= 23,
                forall|j: int| 0 <= j < i ==> #[trigger] out@[j] == Rot::from_code(
                    self.it@[j] as int,
                ),
            decreases PRODUCTS - i,
        {
            out[i] = Rot::from_u8_unchecked(self.it[i]);
            i = i + 1;
        }
        assert(out@ =~= self.tuple());
        out
    }

    /// Get the current tuple, unless the iterator is exhausted.
    pub fn current(&mut self) -> (r: Option<[Rot; PRODUCTS]>)
        ensures
            *final(self) == *old(self),
            old(self).exhausted() ==> r is None,
            !old(self).exhausted() ==> r is Some && r->0@ == old(self).tuple(),
            !old(self).exhausted() ==> r->0@ == rot_tuple_at(PRODUCTS as nat, old(self).count()),
            0 <= old(self).count() <= pow(24, PRODUCTS as nat),
            old(self).exhausted() <==> (PRODUCTS == 0 || old(self).count() == pow(
                24,
                PRODUCTS as nat,
            )),
    {
        proof {
            use_type_invariant(&*self);
            lemma_counter_state(self.it@, 24);
            if !self.exhausted() {
                assert(rot_tuple_at(PRODUCTS as nat, self.count()) =~= self.tuple());
            }
        }
        if PRODUCTS == 0 {
            return None;
        }
        if self.it[0] > 23 {
            return None;
        }
        Some(self.make_tuple())
    }

    /// Continue iteration, returning the current tuple in the process.
    ///
    /// The position `k` that is increased is the last one below 23
    /// (or the first position); the positions after it go back to 0.
    pub fn next(&mut self) -> (r: Option<[Rot; PRODUCTS]>)
        ensures
            old(self).exhausted() ==> r is None && *final(self) == *old(self),
            !old(self).exhausted() ==> r is Some && r->0@ == old(self).tuple() && exists|k: int|
                {
                    &&& 0 <= k < PRODUCTS
                    &&& (k == 0 || old(self).digits()[k] < 23)
                    &&& final(self).digits()[k] == old(self).digits()[k] + 1
                    &&& forall|j: int| 0 <= j < k ==> #[trigger] final(self).digits()[j] == old(
                        self,
                    ).digits()[j]
                    &&& forall|j: int|
                        k < j < PRODUCTS ==> #[trigger] final(self).digits()[j] == 0 && old(
                            self,
                        ).digits()[j] == 23
                },
            final(self).digits().len() == PRODUCTS,
            !old(self).exhausted() ==> r->0@ == rot_tuple_at(PRODUCTS as nat, old(self).count())
                && final(self).count() == old(self).count() + 1,
            0 <= old(self).count() <= pow(24, PRODUCTS as nat),
            old(self).exhausted() <==> (PRODUCTS == 0 || old(self).count() == pow(
                24,
                PRODUCTS as nat,
            )),
            0 <= final(self).count() <= pow(24, PRODUCTS as nat),
            final(self).exhausted() <==> (PRODUCTS == 0 || final(self).count() == pow(
                24,
                PRODUCTS as nat,
            )),
    {
        proof {
            use_type_invariant(&*self);
            lemma_counter_state(self.it@, 24);
            if !self.exhausted() {
                assert(rot_tuple_at(PRODUCTS as nat, self.count()) =~= self.tuple());
            }
        }
        if PRODUCTS == 0 {
            return None;
        }
        if self.it[0] > 23 {
            return None;
        }
        let result = Some(self.make_tuple());
        let ghost old_it = self.it@;
        let mut it = self.it;
        let mut i: usize = PRODUCTS;
        loop
            invariant_except_break
                0 < i <= PRODUCTS,
                old_it[0] <= 23,
                forall|j: int| 0 < j < PRODUCTS ==> #[trigger] old_it[j] <= 23,
                forall|j: int| 0 <= j < i ==> #[trigger] it@[j] == old_it[j],
                forall|j: int| i <= j < PRODUCTS ==> #[trigger] it@[j] == 0,
                forall|j: int| i <= j < PRODUCTS ==> #[trigger] old_it[j] == 23,
            invariant
                it@.len() == PRODUCTS,
                old_it.len() == PRODUCTS,
            ensures
                0 <= i < PRODUCTS,
                it@.len() == PRODUCTS,
                i == 0 || old_it[i as int] < 23,
                it@[i as int] == old_it[i as int] + 1,
                forall|j: int| 0 <= j < i ==> #[trigger] it@[j] == old_it[j],
                forall|j: int| i < j < PRODUCTS ==> #[trigger] it@[j] == 0,
                forall|j: int| i < j < PRODUCTS ==> #[trigger] old_it[j] == 23,
            decreases i,
        {
            i = i - 1;
            if i == 0 || it[i] < 23 {
                it[i] = it[i] + 1;
                break ;
            }
            it[i] = 0;
        }
        proof {
            lemma_step_value(old_it, it@, i as int, 24);
            lemma_counter_state(it@, 24);
        }
        self.it = it;
        proof {
            let k = i as int;
            assert(final(self).digits()[k] == old(self).digits()[k] + 1);
        }
        result
    }
}

} // verus!


verus! {

/// Powers add up: `r^(m + n)` is `r^m` followed by `r^n`.
pub proof fn lemma_pow_add(r: Rot, m: nat, n: nat)
    ensures
        r.pow(m + n) == r.pow(m).spec_rotate_by(r.pow(n)),
    decreases n,
{
    if n == 0 {
        lemma_pow_succ(r, 0);
        law_rotate_by_identity(r.pow(m));
    } else {
        let k = (n - 1) as nat;
        lemma_pow_add(r, m, k);
        lemma_pow_succ(r, m + k);
        lemma_pow_succ(r, k);
        law_rotate_by_associative(r.pow(m), r.pow(k), r);
    }
}

/// Powers repeat with period [Rot::cycle_len].
pub proof fn lemma_pow_mod(r: Rot, n: nat)
    ensures
        r.pow(n) == r.pow(n % r.cycle_len()),
    decreases n,
{
    law_cycle_len(r);
    let len = r.cycle_len();
    if n >= len {
        let k = (n - len) as nat;
        lemma_pow_add(r, len, k);
        law_rotate_by_identity(r.pow(k));
        lemma_pow_mod(r, k);
        assert(n % len == k % len) by {
            vstd::arithmetic::div_mod::lemma_mod_sub_multiples_vanish(n as int, len as int);
        }
    } else {
        vstd::arithmetic::div_mod::lemma_small_mod(n, len);
    }
}

/// A power is the identity exactly when the cycle length divides it.
pub proof fn lemma_pow_identity_iff(r: Rot, n: nat)
    ensures
        (r.pow(n) == Rot::IDENTITY) <==> (n % r.cycle_len() == 0),
{
    law_cycle_len(r);
    lemma_pow_mod(r, n);
    lemma_pow_succ(r, 0);
}

} // verus!

verus! {

impl<T: Copy> core::ops::Index<Rot> for RotTable<T> {
    type Output = T;

    fn index(&self, index: Rot) -> (r: &T)
        ensures
            *r == self.at(index),
    {
        &self.0[index.as_u8() as usize]
    }
}

impl<T: Copy> core::ops::IndexMut<Rot> for RotTable<T> {
    fn index_mut(&mut self, index: Rot) -> (r: &mut T)
        ensures
            *r == old(self).at(index),
            final(self).0@ == old(self).0@.update(index.spec_as_u8() as int, *final(r)),
    {
        &mut self.0[index.as_u8() as usize]
    }
}

} // verus!

verus! {

impl<const PRODUCTS: usize> Clone for CartesianRotIter<PRODUCTS> {
    fn clone(&self) -> (r: Self)
        ensures
            r.digits() == self.digits(),
    {
        proof {
            use_type_invariant(self);
        }
        CartesianRotIter { it: self.it }
    }
}

} // verus!

verus! {

/// The cycle length of each rotation.
spec fn cycle_len_value(r: Rot) -> nat {
    match r {
        Rot::PY0 => 1,
        Rot::PY1 => 4,
        Rot::PY2 => 2,
        Rot::PY3 => 4,
        Rot::NZ0 => 2,
        Rot::NZ1 => 3,
        Rot::NZ2 => 4,
        Rot::NZ3 => 3,
        Rot::NX0 => 3,
        Rot::NX1 => 4,
        Rot::NX2 => 3,
        Rot::NX3 => 2,
        Rot::PZ0 => 4,
        Rot::PZ1 => 3,
        Rot::PZ2 => 2,
        Rot::PZ3 => 3,
        Rot::PX0 => 3,
        Rot::PX1 => 2,
        Rot::PX2 => 3,
        Rot::PX3 => 4,
        Rot::NY0 => 2,
        Rot::NY1 => 2,
        Rot::NY2 => 2,
        Rot::NY3 => 2,
    }
}

/// The cycle length of each rotation, worked out from its face map.
proof fn lemma_cycle_len_value(r: Rot)
    ensures
        r.cycle_len() == cycle_len_value(r),
{
    reveal_with_fuel(Rot::dest_iter, 5);
    lemma_pow_identity(r, 1);
    lemma_pow_identity(r, 2);
    lemma_pow_identity(r, 3);
    lemma_pow_identity(r, 4);
    match r {
        Rot::PY0 => {
            lemma_pow_one(r);
        },
        Rot::PY1 => {
            assert(r.dest_iter(1, Face::PosX) != Face::PosX || r.dest_iter(1, Face::PosY)
                != Face::PosY || r.dest_iter(1, Face::PosZ) != Face::PosZ);
            assert(r.dest_iter(2, Face::PosX) != Face::PosX || r.dest_iter(2, Face::PosY)
                != Face::PosY || r.dest_iter(2, Face::PosZ) != Face::PosZ);
            assert(r.dest_iter(3, Face::PosX) != Face::PosX || r.dest_iter(3, Face::PosY)
                != Face::PosY || r.dest_iter(3, Face::PosZ) != Face::PosZ);
            assert forall|f: Face| #[trigger] r.dest_iter(4, f) == f by {}
        },
        Rot::PY2 => {
            assert(r.dest_iter(1, Face::PosX) != Face::PosX || r.dest_iter(1, Face::PosY)
                != Face::PosY || r.dest_iter(1, Face::PosZ) != Face::PosZ);
            assert forall|f: Face| #[trigger] r.dest_iter(2, f) == f by {}
        },
        Rot::PY3 => {
            assert(r.dest_iter(1, Face::PosX) != Face::PosX || r.dest_iter(1, Face::PosY)
                != Face::PosY || r.dest_iter(1, Face::PosZ) != Face::PosZ);
            assert(r.dest_iter(2, Face::PosX) != Face::PosX || r.dest_iter(2, Face::PosY)
                != Face::PosY || r.dest_iter(2, Face::PosZ) != Face::PosZ);
            assert(r.dest_iter(3, Face::PosX) != Face::PosX || r.dest_iter(3, Face::PosY)
                != Face::PosY || r.dest_iter(3, Face::PosZ) != Face::PosZ);
            assert forall|f: Face| #[trigger] r.dest_iter(4, f) == f by {}
        },
        Rot::NZ0 => {
            assert(r.dest_iter(1, Face::PosX) != Face::PosX || r.dest_iter(1, Face::PosY)
                != Face::PosY || r.dest_iter(1, Face::PosZ) != Face::PosZ);
            assert forall|f: Face| #[trigger] r.dest_iter(2, f) == f by {}
        },
        Rot::NZ1 => {
            assert(r.dest_iter(1, Face::PosX) != Face::PosX || r.dest_iter(1, Face::PosY)
                != Face::PosY || r.dest_iter(1, Face::PosZ) != Face::PosZ);
            assert(r.dest_iter(2, Face::PosX) != Face::PosX || r.dest_iter(2, Face::PosY)
                != Face::PosY || r.dest_iter(2, Face::PosZ) != Face::PosZ);
            assert forall|f: Face| #[trigger] r.dest_iter(3, f) == f by {}
        },
        Rot::NZ2 => {
            assert(r.dest_iter(1, Face::PosX) != Face::PosX || r.dest_iter(1, Face::PosY)
                != Face::PosY || r.dest_iter(1, Face::PosZ) != Face::PosZ);
            assert(r.dest_iter(2, Face::PosX) != Face::PosX || r.dest_iter(2, Face::PosY)
                != Face::PosY || r.dest_iter(2, Face::PosZ) != Face::PosZ);
            assert(r.dest_iter(3, Face::PosX) != Face::PosX || r.dest_iter(3, Face::PosY)
                != Face::PosY || r.dest_iter(3, Face::PosZ) != Face::PosZ);
            assert forall|f: Face| #[trigger] r.dest_iter(4, f) == f by {}
        },
        Rot::NZ3 => {
            assert(r.dest_iter(1, Face::PosX) != Face::PosX || r.dest_iter(1, Face::PosY)
                != Face::PosY || r.dest_iter(1, Face::PosZ) != Face::PosZ);
            assert(r.dest_iter(2, Face::PosX) != Face::PosX || r.dest_iter(2, Face::PosY)
                != Face::PosY || r.dest_iter(2, Face::PosZ) != Face::PosZ);
            assert forall|f: Face| #[trigger] r.dest_iter(3, f) == f by {}
        },
        Rot::NX0 => {
            assert(r.dest_iter(1, Face::PosX) != Face::PosX || r.dest_iter(1, Face::PosY)
                != Face::PosY || r.dest_iter(1, Face::PosZ) != Face::PosZ);
            assert(r.dest_iter(2, Face::PosX) != Face::PosX || r.dest_iter(2, Face::PosY)
                != Face::PosY || r.dest_iter(2, Face::PosZ) != Face::PosZ);
            assert forall|f: Face| #[trigger] r.dest_iter(3, f) == f by {}
        },
        Rot::NX1 => {
            assert(r.dest_iter(1, Face::PosX) != Face::PosX || r.dest_iter(1, Face::PosY)
                != Face::PosY || r.dest_iter(1, Face::PosZ) != Face::PosZ);
            assert(r.dest_iter(2, Face::PosX) != Face::PosX || r.dest_iter(2, Face::PosY)
                != Face::PosY || r.dest_iter(2, Face::PosZ) != Face::PosZ);
            assert(r.dest_iter(3, Face::PosX) != Face::PosX || r.dest_iter(3, Face::PosY)
                != Face::PosY || r.dest_iter(3, Face::PosZ) != Face::PosZ);
            assert forall|f: Face| #[trigger] r.dest_iter(4, f) == f by {}
        },
        Rot::NX2 => {
            assert(r.dest_iter(1, Face::PosX) != Face::PosX || r.dest_iter(1, Face::PosY)
                != Face::PosY || r.dest_iter(1, Face::PosZ) != Face::PosZ);
            assert(r.dest_iter(2, Face::PosX) != Face::PosX || r.dest_iter(2, Face::PosY)
                != Face::PosY || r.dest_iter(2, Face::PosZ) != Face::PosZ);
            assert forall|f: Face| #[trigger] r.dest_iter(3, f) == f by {}
        },
        Rot::NX3 => {
            assert(r.dest_iter(1, Face::PosX) != Face::PosX || r.dest_iter(1, Face::PosY)
                != Face::PosY || r.dest_iter(1, Face::PosZ) != Face::PosZ);
            assert forall|f: Face| #[trigger] r.dest_iter(2, f) == f by {}
        },
        Rot::PZ0 => {
            assert(r.dest_iter(1, Face::PosX) != Face::PosX || r.dest_iter(1, Face::PosY)
                != Face::PosY || r.dest_iter(1, Face::PosZ) != Face::PosZ);
            assert(r.dest_iter(2, Face::PosX) != Face::PosX || r.dest_iter(2, Face::PosY)
                != Face::PosY || r.dest_iter(2, Face::PosZ) != Face::PosZ);
            assert(r.dest_iter(3, Face::PosX) != Face::PosX || r.dest_iter(3, Face::PosY)
                != Face::PosY || r.dest_iter(3, Face::PosZ) != Face::PosZ);
            assert forall|f: Face| #[trigger] r.dest_iter(4, f) == f by {}
        },
        Rot::PZ1 => {
            assert(r.dest_iter(1, Face::PosX) != Face::PosX || r.dest_iter(1, Face::PosY)
                != Face::PosY || r.dest_iter(1, Face::PosZ) != Face::PosZ);
            assert(r.dest_iter(2, Face::PosX) != Face::PosX || r.dest_iter(2, Face::PosY)
                != Face::PosY || r.dest_iter(2, Face::PosZ) != Face::PosZ);
            assert forall|f: Face| #[trigger] r.dest_iter(3, f) == f by {}
        },
        Rot::PZ2 => {
            assert(r.dest_iter(1, Face::PosX) != Face::PosX || r.dest_iter(1, Face::PosY)
                != Face::PosY || r.dest_iter(1, Face::PosZ) != Face::PosZ);
            assert forall|f: Face| #[trigger] r.dest_iter(2, f) == f by {}
        },
        Rot::PZ3 => {
            assert(r.dest_iter(1, Face::PosX) != Face::PosX || r.dest_iter(1, Face::PosY)
                != Face::PosY || r.dest_iter(1, Face::PosZ) != Face::PosZ);
            assert(r.dest_iter(2, Face::PosX) != Face::PosX || r.dest_iter(2, Face::PosY)
                != Face::PosY || r.dest_iter(2, Face::PosZ) != Face::PosZ);
            assert forall|f: Face| #[trigger] r.dest_iter(3, f) == f by {}
        },
        Rot::PX0 => {
            assert(r.dest_iter(1, Face::PosX) != Face::PosX || r.dest_iter(1, Face::PosY)
                != Face::PosY || r.dest_iter(1, Face::PosZ) != Face::PosZ);
            assert(r.dest_iter(2, Face::PosX) != Face::PosX || r.dest_iter(2, Face::PosY)
                != Face::PosY || r.dest_iter(2, Face::PosZ) != Face::PosZ);
            assert forall|f: Face| #[trigger] r.dest_iter(3, f) == f by {}
        },
        Rot::PX1 => {
            assert(r.dest_iter(1, Face::PosX) != Face::PosX || r.dest_iter(1, Face::PosY)
                != Face::PosY || r.dest_iter(1, Face::PosZ) != Face::PosZ);
            assert forall|f: Face| #[trigger] r.dest_iter(2, f) == f by {}
        },
        Rot::PX2 => {
            assert(r.dest_iter(1, Face::PosX) != Face::PosX || r.dest_iter(1, Face::PosY)
                != Face::PosY || r.dest_iter(1, Face::PosZ) != Face::PosZ);
            assert(r.dest_iter(2, Face::PosX) != Face::PosX || r.dest_iter(2, Face::PosY)
                != Face::PosY || r.dest_iter(2, Face::PosZ) != Face::PosZ);
            assert forall|f: Face| #[trigger] r.dest_iter(3, f) == f by {}
        },
        Rot::PX3 => {
            assert(r.dest_iter(1, Face::PosX) != Face::PosX || r.dest_iter(1, Face::PosY)
                != Face::PosY || r.dest_iter(1, Face::PosZ) != Face::PosZ);
            assert(r.dest_iter(2, Face::PosX) != Face::PosX || r.dest_iter(2, Face::PosY)
                != Face::PosY || r.dest_iter(2, Face::PosZ) != Face::PosZ);
            assert(r.dest_iter(3, Face::PosX) != Face::PosX || r.dest_iter(3, Face::PosY)
                != Face::PosY || r.dest_iter(3, Face::PosZ) != Face::PosZ);
            assert forall|f: Face| #[trigger] r.dest_iter(4, f) == f by {}
        },
        Rot::NY0 => {
            assert(r.dest_iter(1, Face::PosX) != Face::PosX || r.dest_iter(1, Face::PosY)
                != Face::PosY || r.dest_iter(1, Face::PosZ) != Face::PosZ);
            assert forall|f: Face| #[trigger] r.dest_iter(2, f) == f by {}
        },
        Rot::NY1 => {
            assert(r.dest_iter(1, Face::PosX) != Face::PosX || r.dest_iter(1, Face::PosY)
                != Face::PosY || r.dest_iter(1, Face::PosZ) != Face::PosZ);
            assert forall|f: Face| #[trigger] r.dest_iter(2, f) == f by {}
        },
        Rot::NY2 => {
            assert(r.dest_iter(1, Face::PosX) != Face::PosX || r.dest_iter(1, Face::PosY)
                != Face::PosY || r.dest_iter(1, Face::PosZ) != Face::PosZ);
            assert forall|f: Face| #[trigger] r.dest_iter(2, f) == f by {}
        },
        Rot::NY3 => {
            assert(r.dest_iter(1, Face::PosX) != Face::PosX || r.dest_iter(1, Face::PosY)
                != Face::PosY || r.dest_iter(1, Face::PosZ) != Face::PosZ);
            assert forall|f: Face| #[trigger] r.dest_iter(2, f) == f by {}
        },
    }
}

/// How many of the rotations numbered below `n` are in class `c`.
pub open spec fn class_count(c: ConjugacyClass, n: nat) -> nat
    decreases n,
{
    if n == 0 {
        0
    } else {
        class_count(c, (n - 1) as nat) + if spec_conjugacy_class(Rot::from_code(n - 1)) == c {
            1nat
        } else {
            0nat
        }
    }
}

/// The conjugacy classes have 1, 6, 3, 8 and 6 elements.
pub proof fn law_conjugacy_class_sizes()
    ensures
        class_count(ConjugacyClass::Identity, 24) == 1,
        class_count(ConjugacyClass::EdgeBinary, 24) == 6,
        class_count(ConjugacyClass::FaceBinary, 24) == 3,
        class_count(ConjugacyClass::Ternary, 24) == 8,
        class_count(ConjugacyClass::Quaternary, 24) == 6,
{
    lemma_cycle_len_value(Rot::PY0);
    lemma_cycle_len_value(Rot::PY1);
    lemma_cycle_len_value(Rot::PY2);
    lemma_cycle_len_value(Rot::PY3);
    lemma_cycle_len_value(Rot::NZ0);
    lemma_cycle_len_value(Rot::NZ1);
    lemma_cycle_len_value(Rot::NZ2);
    lemma_cycle_len_value(Rot::NZ3);
    lemma_cycle_len_value(Rot::NX0);
    lemma_cycle_len_value(Rot::NX1);
    lemma_cycle_len_value(Rot::NX2);
    lemma_cycle_len_value(Rot::NX3);
    lemma_cycle_len_value(Rot::PZ0);
    lemma_cycle_len_value(Rot::PZ1);
    lemma_cycle_len_value(Rot::PZ2);
    lemma_cycle_len_value(Rot::PZ3);
    lemma_cycle_len_value(Rot::PX0);
    lemma_cycle_len_value(Rot::PX1);
    lemma_cycle_len_value(Rot::PX2);
    lemma_cycle_len_value(Rot::PX3);
    lemma_cycle_len_value(Rot::NY0);
    lemma_cycle_len_value(Rot::NY1);
    lemma_cycle_len_value(Rot::NY2);
    lemma_cycle_len_value(Rot::NY3);
    reveal_with_fuel(class_count, 25);
}

} // verus!

verus! {

/// The tuple that the cartesian iterator of `p` positions returns as its
/// `n`-th (counting from 0): position `j` holds the [Rot] numbered by
/// digit `j` of `n` in base 24, so the last position changes fastest.
pub open spec fn rot_tuple_at(p: nat, n: int) -> Seq<Rot> {
    digits_of(n, 24, p).map_values(|d: u8| Rot::from_code(d as int))
}

/// The cartesian iterator of `p` positions returns every tuple of `p`
/// values exactly once: the tuples numbered `0` to `24^p - 1` are all
/// different, each tuple of `p` values is one of them, and the value at
/// the last position of tuple `n` is the one numbered `n % 24`. (Its
/// `next` returns tuple `count()` and adds one to `count()`, from 0 up to
/// `24^p`, where it returns [None] from then on.)
pub proof fn law_rot_cartesian_enumeration(p: nat, i: int, j: int, t: Seq<Rot>)
    ensures
        rot_tuple_at(p, i).len() == p,
        0 <= i < j < pow(24, p) ==> rot_tuple_at(p, i) != rot_tuple_at(p, j),
        t.len() == p ==> exists|k: int| 0 <= k < pow(24, p) && #[trigger] rot_tuple_at(p, k) == t,
        p > 0 && 0 <= i ==> rot_tuple_at(p, i)[p - 1] == Rot::from_code(i % 24),
{
    lemma_digits_len(i, p);
    if 0 <= i < j < pow(24, p) {
        lemma_digits_of_value(i, 24, p);
        lemma_digits_of_value(j, 24, p);
        let di = digits_of(i, 24, p);
        let dj = digits_of(j, 24, p);
        if rot_tuple_at(p, i) == rot_tuple_at(p, j) {
            assert forall|x: int| 0 <= x < p implies di[x] == dj[x] by {
                assert(rot_tuple_at(p, i)[x] == rot_tuple_at(p, j)[x]);
                law_rot_codes(di[x] as int);
                law_rot_codes(dj[x] as int);
            }
            assert(di =~= dj);
        }
    }
    if t.len() == p {
        let s = Seq::new(p, |x: int| t[x].spec_as_u8());
        assert forall|x: int| 0 <= x < s.len() implies #[trigger] s[x] < 24 by {
            lemma_code_bound(t[x]);
        }
        lemma_value_of_digits(s, 24);
        let k = digits_value(s, 24);
        assert forall|x: int| 0 <= x < p implies #[trigger] rot_tuple_at(p, k)[x] == t[x] by {
            lemma_code_bound(t[x]);
        }
        assert(rot_tuple_at(p, k) =~= t);
    }
    if p > 0 && 0 <= i {
        let d = digits_of(i, 24, p);
        assert(d[p - 1] == (i % 24) as u8);
    }
}

/// `digits_of` has the length asked for.
proof fn lemma_digits_len(n: int, p: nat)
    ensures
        digits_of(n, 24, p).len() == p,
    decreases p,
{
    if p > 0 {
        lemma_digits_len(n / 24, (p - 1) as nat);
    }
}

} // verus!

verus! {

/// A rotation is orthogonal exactly when it carries some face off its
/// axis; when it keeps `+X` and `+Y` on their axes it keeps every face on
/// its axis. Every rotation of cycle length 3 or 4 is orthogonal.
pub proof fn law_is_orthogonal_axes(r: Rot)
    ensures
        r.spec_is_orthogonal() <==> exists|f: Face| #[trigger] r.spec_face_dest(f).spec_axis()
            != f.spec_axis(),
        r.cycle_len() == 3 || r.cycle_len() == 4 ==> r.spec_is_orthogonal(),
{
    lemma_cycle_len_value(r);
    if r.spec_is_orthogonal() {
        if r.spec_face_dest(Face::PosX).spec_axis() != Axis::X {
            assert(r.spec_face_dest(Face::PosX).spec_axis() != Face::PosX.spec_axis());
        } else {
            assert(r.spec_face_dest(Face::PosY).spec_axis() != Face::PosY.spec_axis());
        }
    }
}

/// The conjugacy class follows the cycle length: the identity alone has
/// cycle length 1, the ternary rotations have cycle length 3 and the
/// quaternary ones 4; of the half turns (cycle length 2), the face half
/// turns keep every face on its axis and the edge half turns move some
/// face off its axis.
pub proof fn law_conjugacy_class(r: Rot)
    ensures
        (spec_conjugacy_class(r) == ConjugacyClass::Identity) <==> r == Rot::IDENTITY,
        (spec_conjugacy_class(r) == ConjugacyClass::Identity) <==> r.cycle_len() == 1,
        (spec_conjugacy_class(r) == ConjugacyClass::Ternary) <==> r.cycle_len() == 3,
        (spec_conjugacy_class(r) == ConjugacyClass::Quaternary) <==> r.cycle_len() == 4,
        (spec_conjugacy_class(r) == ConjugacyClass::FaceBinary) <==> (r.cycle_len() == 2
            && forall|f: Face| #[trigger] r.spec_face_dest(f).spec_axis() == f.spec_axis()),
        (spec_conjugacy_class(r) == ConjugacyClass::EdgeBinary) <==> (r.cycle_len() == 2
            && exists|f: Face| #[trigger] r.spec_face_dest(f).spec_axis() != f.spec_axis()),
{
    lemma_cycle_len_value(r);
    law_is_orthogonal_axes(r);
    lemma_pow_one(r);
}

} // verus!
