use vstd::prelude::*;

use vstd::arithmetic::power::pow;

use crate::counting::{
    digits_of,
    digits_value,
    lemma_counter_state,
    lemma_digits_of_value,
    lemma_step_value,
    lemma_value_of_digits,
    lemma_zero_value,
};

use crate::face::{AngleDirection, Face, orthogonal};
use crate::rotation::{
    Rot,
    law_cycle_len,
    law_face_round_trip,
    law_invert,
    law_rotate_by_associative,
    law_rotate_by_identity,
    law_rotate_by_inverse,
    lemma_dest_invert,
    lemma_dest_orthogonal,
    lemma_up_forward_orthogonal,
    lemma_from_up_and_forward,
    lemma_orthogonal_is_turned_up,
    lemma_pow_identity_iff,
    lemma_pow_succ,
    lemma_rotate_by_dest,
    lemma_rotate_by_inverse_dest,
    lemma_src_invert,
    lemma_up_orthogonal,
};

verus! {

/// The conjugacy classes of the full symmetry group of the cube: those
/// of the rotations, and the same classes combined with the inversion.
#[derive(Debug, Clone, Copy, PartialEq, Eq, Structural, PartialOrd, Ord, Hash)]
pub enum AchiralConjugacyClass {
    Identity,
    EdgeBinary,
    FaceBinary,
    Ternary,
    Quaternary,
    InverseIdentity,
    InverseEdgeBinary,
    InverseFaceBinary,
    InverseTernary,
    InverseQuaternary,
}

/// One of the 48 symmetries of a cube: a rotation, optionally preceded
/// by the inversion that swaps every face with the opposite one.
///
/// The names are the rotation's name followed by `N` (not reflected) or
/// `R` (reflected). The variants are declared in the order of their
/// numbers, which is `2 * rot.as_u8() + reflected`.
#[derive(Debug, Clone, Copy, PartialEq, Eq, Structural, PartialOrd, Ord, Hash)]
pub enum Sym {
    PY0N,
    PY0R,
    PY1N,
    PY1R,
    PY2N,
    PY2R,
    PY3N,
    PY3R,
    NZ0N,
    NZ0R,
    NZ1N,
    NZ1R,
    NZ2N,
    NZ2R,
    NZ3N,
    NZ3R,
    NX0N,
    NX0R,
    NX1N,
    NX1R,
    NX2N,
    NX2R,
    NX3N,
    NX3R,
    PZ0N,
    PZ0R,
    PZ1N,
    PZ1R,
    PZ2N,
    PZ2R,
    PZ3N,
    PZ3R,
    PX0N,
    PX0R,
    PX1N,
    PX1R,
    PX2N,
    PX2R,
    PX3N,
    PX3R,
    NY0N,
    NY0R,
    NY1N,
    NY1R,
    NY2N,
    NY2R,
    NY3N,
    NY3R,
}

impl Sym {
    /// The symmetry that leaves every face in place.
    pub const IDENTITY: Sym = Sym::PY0N;

    /// The inversion, that swaps every face with the opposite one.
    pub const REFLECTED: Sym = Sym::PY0R;

    /// The symmetry with the lowest number.
    pub const MIN: Sym = Sym::PY0N;

    /// The symmetry with the highest number.
    pub const MAX: Sym = Sym::NY3R;

    /// The counter-clockwise quarter turn about the `X` axis.
    pub const ROTATE_X: Sym = Sym::PZ0N;

    /// The counter-clockwise quarter turn about the `Y` axis.
    pub const ROTATE_Y: Sym = Sym::PY1N;

    /// The counter-clockwise quarter turn about the `Z` axis.
    pub const ROTATE_Z: Sym = Sym::NX1N;

    // --- MODEL ---
    /// The number of the symmetry.
    pub open spec fn spec_as_u8(self) -> u8 {
        match self {
            Sym::PY0N => 0,
            Sym::PY0R => 1,
            Sym::PY1N => 2,
            Sym::PY1R => 3,
            Sym::PY2N => 4,
            Sym::PY2R => 5,
            Sym::PY3N => 6,
            Sym::PY3R => 7,
            Sym::NZ0N => 8,
            Sym::NZ0R => 9,
            Sym::NZ1N => 10,
            Sym::NZ1R => 11,
            Sym::NZ2N => 12,
            Sym::NZ2R => 13,
            Sym::NZ3N => 14,
            Sym::NZ3R => 15,
            Sym::NX0N => 16,
            Sym::NX0R => 17,
            Sym::NX1N => 18,
            Sym::NX1R => 19,
            Sym::NX2N => 20,
            Sym::NX2R => 21,
            Sym::NX3N => 22,
            Sym::NX3R => 23,
            Sym::PZ0N => 24,
            Sym::PZ0R => 25,
            Sym::PZ1N => 26,
            Sym::PZ1R => 27,
            Sym::PZ2N => 28,
            Sym::PZ2R => 29,
            Sym::PZ3N => 30,
            Sym::PZ3R => 31,
            Sym::PX0N => 32,
            Sym::PX0R => 33,
            Sym::PX1N => 34,
            Sym::PX1R => 35,
            Sym::PX2N => 36,
            Sym::PX2R => 37,
            Sym::PX3N => 38,
            Sym::PX3R => 39,
            Sym::NY0N => 40,
            Sym::NY0R => 41,
            Sym::NY1N => 42,
            Sym::NY1R => 43,
            Sym::NY2N => 44,
            Sym::NY2R => 45,
            Sym::NY3N => 46,
            Sym::NY3R => 47,
        }
    }

    /// The symmetry whose number is `n` (for `0 <= n < 48`).
    pub open spec fn from_code(n: int) -> Sym {
        if n == 0 {
            Sym::PY0N
        } else if n == 1 {
            Sym::PY0R
        } else if n == 2 {
            Sym::PY1N
        } else if n == 3 {
            Sym::PY1R
        } else if n == 4 {
            Sym::PY2N
        } else if n == 5 {
            Sym::PY2R
        } else if n == 6 {
            Sym::PY3N
        } else if n == 7 {
            Sym::PY3R
        } else if n == 8 {
            Sym::NZ0N
        } else if n == 9 {
            Sym::NZ0R
        } else if n == 10 {
            Sym::NZ1N
        } else if n == 11 {
            Sym::NZ1R
        } else if n == 12 {
            Sym::NZ2N
        } else if n == 13 {
            Sym::NZ2R
        } else if n == 14 {
            Sym::NZ3N
        } else if n == 15 {
            Sym::NZ3R
        } else if n == 16 {
            Sym::NX0N
        } else if n == 17 {
            Sym::NX0R
        } else if n == 18 {
            Sym::NX1N
        } else if n == 19 {
            Sym::NX1R
        } else if n == 20 {
            Sym::NX2N
        } else if n == 21 {
            Sym::NX2R
        } else if n == 22 {
            Sym::NX3N
        } else if n == 23 {
            Sym::NX3R
        } else if n == 24 {
            Sym::PZ0N
        } else if n == 25 {
            Sym::PZ0R
        } else if n == 26 {
            Sym::PZ1N
        } else if n == 27 {
            Sym::PZ1R
        } else if n == 28 {
            Sym::PZ2N
        } else if n == 29 {
            Sym::PZ2R
        } else if n == 30 {
            Sym::PZ3N
        } else if n == 31 {
            Sym::PZ3R
        } else if n == 32 {
            Sym::PX0N
        } else if n == 33 {
            Sym::PX0R
        } else if n == 34 {
            Sym::PX1N
        } else if n == 35 {
            Sym::PX1R
        } else if n == 36 {
            Sym::PX2N
        } else if n == 37 {
            Sym::PX2R
        } else if n == 38 {
            Sym::PX3N
        } else if n == 39 {
            Sym::PX3R
        } else if n == 40 {
            Sym::NY0N
        } else if n == 41 {
            Sym::NY0R
        } else if n == 42 {
            Sym::NY1N
        } else if n == 43 {
            Sym::NY1R
        } else if n == 44 {
            Sym::NY2N
        } else if n == 45 {
            Sym::NY2R
        } else if n == 46 {
            Sym::NY3N
        } else {
            Sym::NY3R
        }
    }

    /// The rotation part.
    pub open spec fn spec_rot(self) -> Rot {
        Rot::from_code(self.spec_as_u8() as int / 2)
    }

    /// Whether the inversion is applied first.
    pub open spec fn spec_is_reflected(self) -> bool {
        self.spec_as_u8() % 2 == 1
    }

    /// The symmetry made of `rot`, preceded by the inversion when
    /// `reflected` holds.
    pub open spec fn make(rot: Rot, reflected: bool) -> Sym {
        Sym::from_code(rot.spec_as_u8() as int * 2 + if reflected { 1int } else { 0int })
    }

    /// Where the symmetry carries `face`.
    pub open spec fn spec_face_dest(self, face: Face) -> Face {
        self.spec_rot().spec_face_dest(
            if self.spec_is_reflected() {
                face.spec_invert()
            } else {
                face
            },
        )
    }

    /// The face that the symmetry carries to `face`.
    pub open spec fn spec_face_src(self, face: Face) -> Face {
        let g = self.spec_rot().spec_face_src(face);
        if self.spec_is_reflected() {
            g.spec_invert()
        } else {
            g
        }
    }

    /// `self` followed by `transform`.
    #[verifier::opaque]
    pub open spec fn spec_transform_by(self, transform: Sym) -> Sym {
        let reflected = self.spec_is_reflected() != transform.spec_is_reflected();
        let up = transform.spec_face_dest(self.spec_face_dest(Face::UP));
        let fwd = transform.spec_face_dest(self.spec_face_dest(Face::FORWARD));
        let inv_up = if reflected { up.spec_invert() } else { up };
        let inv_fwd = if reflected { fwd.spec_invert() } else { fwd };
        Sym::make(Rot::spec_from_up_and_forward(inv_up, inv_fwd).unwrap(), reflected)
    }

    /// `self` followed by the inverse of `transform`.
    #[verifier::opaque]
    pub open spec fn spec_transform_by_inverse(self, transform: Sym) -> Sym {
        let reflected = self.spec_is_reflected() != transform.spec_is_reflected();
        let up = transform.spec_face_src(self.spec_face_dest(Face::UP));
        let fwd = transform.spec_face_src(self.spec_face_dest(Face::FORWARD));
        let inv_up = if reflected { up.spec_invert() } else { up };
        let inv_fwd = if reflected { fwd.spec_invert() } else { fwd };
        Sym::make(Rot::spec_from_up_and_forward(inv_up, inv_fwd).unwrap(), reflected)
    }

    /// The symmetry that undoes `self`.
    pub open spec fn spec_invert(self) -> Sym {
        Sym::IDENTITY.spec_transform_by_inverse(self)
    }

    /// `self` applied `n` times.
    #[verifier::opaque]
    pub open spec fn pow(self, n: nat) -> Sym
        decreases n,
    {
        if n == 0 {
            Sym::IDENTITY
        } else {
            self.pow((n - 1) as nat).spec_transform_by(self)
        }
    }

    /// The least `n >= 1` with `self.pow(n) == IDENTITY` (it is 1, 2, 3,
    /// 4 or 6).
    pub open spec fn cycle_len(self) -> nat {
        if self.pow(1) == Sym::IDENTITY {
            1
        } else if self.pow(2) == Sym::IDENTITY {
            2
        } else if self.pow(3) == Sym::IDENTITY {
            3
        } else if self.pow(4) == Sym::IDENTITY {
            4
        } else if self.pow(5) == Sym::IDENTITY {
            5
        } else {
            6
        }
    }

    // --- CONSTRUCTORS ---
    /// Create a [Sym] from a raw [u8] value that is known to be a valid
    /// symmetry number (`value < 48`).
    pub fn from_u8_unchecked(value: u8) -> (r: Self)
        requires
            value < 48,
        ensures
            r == Sym::from_code(value as int),
            r.spec_as_u8() == value,
    {
        match value {
            0 => Sym::PY0N,
            1 => Sym::PY0R,
            2 => Sym::PY1N,
            3 => Sym::PY1R,
            4 => Sym::PY2N,
            5 => Sym::PY2R,
            6 => Sym::PY3N,
            7 => Sym::PY3R,
            8 => Sym::NZ0N,
            9 => Sym::NZ0R,
            10 => Sym::NZ1N,
            11 => Sym::NZ1R,
            12 => Sym::NZ2N,
            13 => Sym::NZ2R,
            14 => Sym::NZ3N,
            15 => Sym::NZ3R,
            16 => Sym::NX0N,
            17 => Sym::NX0R,
            18 => Sym::NX1N,
            19 => Sym::NX1R,
            20 => Sym::NX2N,
            21 => Sym::NX2R,
            22 => Sym::NX3N,
            23 => Sym::NX3R,
            24 => Sym::PZ0N,
            25 => Sym::PZ0R,
            26 => Sym::PZ1N,
            27 => Sym::PZ1R,
            28 => Sym::PZ2N,
            29 => Sym::PZ2R,
            30 => Sym::PZ3N,
            31 => Sym::PZ3R,
            32 => Sym::PX0N,
            33 => Sym::PX0R,
            34 => Sym::PX1N,
            35 => Sym::PX1R,
            36 => Sym::PX2N,
            37 => Sym::PX2R,
            38 => Sym::PX3N,
            39 => Sym::PX3R,
            40 => Sym::NY0N,
            41 => Sym::NY0R,
            42 => Sym::NY1N,
            43 => Sym::NY1R,
            44 => Sym::NY2N,
            45 => Sym::NY2R,
            46 => Sym::NY3N,
            _ => Sym::NY3R,
        }
    }

    /// Attempt to create a [Sym] from a raw [u8] value; [None] when the
    /// value is not a symmetry number.
    pub fn from_u8(value: u8) -> (r: Option<Self>)
        ensures
            value < 48 ==> r == Some(Sym::from_code(value as int)),
            value >= 48 ==> r is None,
    {
        if value > Self::MAX.as_u8() {
            return None;
        }
        Some(Self::from_u8_unchecked(value))
    }

    /// The symmetry made of `rot`, preceded by the inversion when
    /// `reflected` holds.
    pub fn new(rot: Rot, reflected: bool) -> (r: Self)
        ensures
            r == Sym::make(rot, reflected),
            r.spec_rot() == rot,
            r.spec_is_reflected() == reflected,
    {
        let bit: u8 = if reflected {
            1
        } else {
            0
        };
        Self::from_u8_unchecked(rot.as_u8() * 2 + bit)
    }

    // --- ACCESSORS ---
    /// The number of the symmetry.
    #[verifier::when_used_as_spec(spec_as_u8)]
    pub fn as_u8(self) -> (r: u8)
        ensures
            r == self.spec_as_u8(),
            r < 48,
    {
        match self {
            Sym::PY0N => 0,
            Sym::PY0R => 1,
            Sym::PY1N => 2,
            Sym::PY1R => 3,
            Sym::PY2N => 4,
            Sym::PY2R => 5,
            Sym::PY3N => 6,
            Sym::PY3R => 7,
            Sym::NZ0N => 8,
            Sym::NZ0R => 9,
            Sym::NZ1N => 10,
            Sym::NZ1R => 11,
            Sym::NZ2N => 12,
            Sym::NZ2R => 13,
            Sym::NZ3N => 14,
            Sym::NZ3R => 15,
            Sym::NX0N => 16,
            Sym::NX0R => 17,
            Sym::NX1N => 18,
            Sym::NX1R => 19,
            Sym::NX2N => 20,
            Sym::NX2R => 21,
            Sym::NX3N => 22,
            Sym::NX3R => 23,
            Sym::PZ0N => 24,
            Sym::PZ0R => 25,
            Sym::PZ1N => 26,
            Sym::PZ1R => 27,
            Sym::PZ2N => 28,
            Sym::PZ2R => 29,
            Sym::PZ3N => 30,
            Sym::PZ3R => 31,
            Sym::PX0N => 32,
            Sym::PX0R => 33,
            Sym::PX1N => 34,
            Sym::PX1R => 35,
            Sym::PX2N => 36,
            Sym::PX2R => 37,
            Sym::PX3N => 38,
            Sym::PX3R => 39,
            Sym::NY0N => 40,
            Sym::NY0R => 41,
            Sym::NY1N => 42,
            Sym::NY1R => 43,
            Sym::NY2N => 44,
            Sym::NY2R => 45,
            Sym::NY3N => 46,
            Sym::NY3R => 47,
        }
    }

    /// The rotation part.
    #[verifier::when_used_as_spec(spec_rot)]
    pub fn rot(self) -> (r: Rot)
        ensures
            r == self.spec_rot(),
    {
        Rot::from_u8_unchecked(self.as_u8() / 2)
    }

    /// Whether the inversion is applied first.
    #[verifier::when_used_as_spec(spec_is_reflected)]
    pub fn is_reflected(self) -> (r: bool)
        ensures
            r == self.spec_is_reflected(),
    {
        self.as_u8() % 2 != 0
    }

    // --- QUERIES ---
    /// The symmetry with the other reflection flag and the same rotation.
    pub fn reflect(self) -> (r: Self)
        ensures
            r == Sym::make(self.spec_rot(), !self.spec_is_reflected()),
    {
        let code = self.as_u8();
        let flipped: u8 = if code % 2 == 0 {
            code + 1
        } else {
            code - 1
        };
        Self::from_u8_unchecked(flipped)
    }

    /// Where the symmetry carries `face`.
    #[verifier::when_used_as_spec(spec_face_dest)]
    pub fn face_dest(self, face: Face) -> (r: Face)
        ensures
            r == self.spec_face_dest(face),
    {
        let inv_face = face.invert_if(self.is_reflected());
        self.rot().face_dest(inv_face)
    }

    /// The face that the symmetry carries to `face`.
    #[verifier::when_used_as_spec(spec_face_src)]
    pub fn face_src(self, face: Face) -> (r: Face)
        ensures
            r == self.spec_face_src(face),
    {
        let src = self.rot().face_src(face);
        src.invert_if(self.is_reflected())
    }

    /// Transform `self` by `transform`: the result carries each face first
    /// as `self` does and then as `transform` does.
    #[verifier::when_used_as_spec(spec_transform_by)]
    pub fn transform_by(self, transform: Sym) -> (r: Self)
        ensures
            r == self.spec_transform_by(transform),
            forall|f: Face| #[trigger]
                r.spec_face_dest(f) == transform.spec_face_dest(self.spec_face_dest(f)),
    {
        let reflected = self.is_reflected() != transform.is_reflected();
        let up = self.face_dest(Face::UP);
        let fwd = self.face_dest(Face::FORWARD);
        let trans_up = transform.face_dest(up);
        let trans_fwd = transform.face_dest(fwd);
        let inv_up = trans_up.invert_if(reflected);
        let inv_fwd = trans_fwd.invert_if(reflected);
        proof {
            reveal(Sym::spec_transform_by);
            lemma_transform_by_parts(self, transform);
            let a = self.spec_rot();
            let b = transform.spec_rot();
            lemma_rotate_by_dest(a, b, Face::UP);
            lemma_rotate_by_dest(a, b, Face::FORWARD);
            lemma_transform_by_dest(self, transform, Face::UP);
            lemma_transform_by_dest(self, transform, Face::FORWARD);
            lemma_make_parts(a.spec_rotate_by(b), reflected);
            law_sym_rot_up_forward(self.spec_transform_by(transform));
            lemma_invert_twice(self.spec_transform_by(transform).spec_face_dest(Face::UP));
            lemma_invert_twice(self.spec_transform_by(transform).spec_face_dest(Face::FORWARD));
            lemma_up_forward_orthogonal();
            lemma_dest_orthogonal(a.spec_rotate_by(b), Face::UP, Face::FORWARD);
            lemma_from_up_and_forward(inv_up, inv_fwd);
            assert forall|f: Face| #[trigger]
                self.spec_transform_by(transform).spec_face_dest(f) == transform.spec_face_dest(
                    self.spec_face_dest(f),
                ) by {
                lemma_transform_by_dest(self, transform, f);
            }
        }
        let rot = Rot::from_up_and_forward(inv_up, inv_fwd).unwrap();
        Sym::new(rot, reflected)
    }

    /// Transform `self` by the inverse of `transform`.
    #[verifier::when_used_as_spec(spec_transform_by_inverse)]
    pub fn transform_by_inverse(self, transform: Sym) -> (r: Self)
        ensures
            r == self.spec_transform_by_inverse(transform),
            r == self.spec_transform_by(transform.spec_invert()),
    {
        let reflected = self.is_reflected() != transform.is_reflected();
        let up = self.face_dest(Face::UP);
        let fwd = self.face_dest(Face::FORWARD);
        let trans_up = transform.face_src(up);
        let trans_fwd = transform.face_src(fwd);
        let inv_up = trans_up.invert_if(reflected);
        let inv_fwd = trans_fwd.invert_if(reflected);
        proof {
            reveal(Sym::spec_transform_by_inverse);
            lemma_transform_by_inverse_parts(self, transform);
            let a = self.spec_rot();
            let b = transform.spec_rot();
            let c = a.spec_rotate_by_inverse(b);
            lemma_make_parts(c, reflected);
            lemma_rotate_by_inverse_dest(a, b, Face::UP);
            lemma_rotate_by_inverse_dest(a, b, Face::FORWARD);
            lemma_up_forward_orthogonal();
            lemma_dest_orthogonal(c, Face::UP, Face::FORWARD);
            lemma_from_up_and_forward(c.spec_face_dest(Face::UP), c.spec_face_dest(Face::FORWARD));
            lemma_dest_invert(a, Face::UP);
            lemma_dest_invert(a, Face::FORWARD);
            lemma_src_invert(b, a.spec_face_dest(Face::UP));
            lemma_src_invert(b, a.spec_face_dest(Face::FORWARD));
            lemma_src_invert(b, a.spec_face_dest(Face::UP).spec_invert());
            lemma_src_invert(b, a.spec_face_dest(Face::FORWARD).spec_invert());
            lemma_invert_twice(b.spec_face_src(a.spec_face_dest(Face::UP)));
            lemma_invert_twice(b.spec_face_src(a.spec_face_dest(Face::FORWARD)));
            lemma_invert_twice(a.spec_face_dest(Face::UP));
            lemma_invert_twice(a.spec_face_dest(Face::FORWARD));
            law_sym_transform_by_inverse(self, transform);
        }
        let rot = Rot::from_up_and_forward(inv_up, inv_fwd).unwrap();
        Sym::new(rot, reflected)
    }

    /// Transform `self` by `transform` within the local space of `self`:
    /// `transform.transform_by(self)`.
    pub fn local_transform_by(self, transform: Self) -> (r: Self)
        ensures
            r == transform.spec_transform_by(self),
    {
        transform.transform_by(self)
    }

    /// Transform `transform` by the inverse of `self`:
    /// `transform.transform_by_inverse(self)`.
    pub fn local_transform_by_inverse(self, transform: Self) -> (r: Self)
        ensures
            r == transform.spec_transform_by_inverse(self),
    {
        transform.transform_by_inverse(self)
    }

    /// Determines the angle of the face positioned at the location of `face`.
    ///
    /// This angle determines which direction is the face's up. For reflected
    /// symmetries, the left and right are swapped, which means that the angle
    /// may seem inverted from the perspective of the non-reflected face.
    pub fn src_face_angle(self, face: Face) -> (r: i8)
        ensures
            0 <= r < 4,
            face.up_turned(r as int) == self.spec_face_dest(self.spec_face_src(face).spec_up()),
    {
        let src_face = self.face_src(face);
        let src_face_up = src_face.up();
        let src_face_up_dest = self.face_dest(src_face_up);
        proof {
            law_sym_face_round_trip(self, face);
            lemma_up_orthogonal(src_face);
            lemma_sym_dest_orthogonal(self, src_face, src_face_up);
            lemma_orthogonal_is_turned_up(face, src_face_up_dest);
        }
        match Face::ANGLE_DIRECTION {
            AngleDirection::CCW => {
                if src_face_up_dest.eq(face.up()) {
                    0
                } else if src_face_up_dest.eq(face.left()) {
                    1
                } else if src_face_up_dest.eq(face.down()) {
                    2
                } else {
                    3
                }
            },
            AngleDirection::CW => {
                if src_face_up_dest.eq(face.up()) {
                    0
                } else if src_face_up_dest.eq(face.right()) {
                    1
                } else if src_face_up_dest.eq(face.down()) {
                    2
                } else {
                    3
                }
            },
        }
    }

    /// Determine the angle of `face` in its destination after transformation.
    ///
    /// This angle determines which direction is the face's up. For reflected
    /// symmetries, the left and right are swapped, which means that the angle
    /// may seem inverted from the perspective of the non-reflected face.
    pub fn dest_face_angle(self, face: Face) -> (r: i8)
        ensures
            0 <= r < 4,
            self.spec_face_dest(face).up_turned(r as int) == self.spec_face_dest(face.spec_up()),
    {
        let dest_face = self.face_dest(face);
        let face_up_dest = self.face_dest(face.up());
        proof {
            lemma_up_orthogonal(face);
            lemma_sym_dest_orthogonal(self, face, face.spec_up());
            lemma_orthogonal_is_turned_up(dest_face, face_up_dest);
        }
        match Face::ANGLE_DIRECTION {
            AngleDirection::CCW => {
                if face_up_dest.eq(dest_face.up()) {
                    0
                } else if face_up_dest.eq(dest_face.left()) {
                    1
                } else if face_up_dest.eq(dest_face.down()) {
                    2
                } else {
                    3
                }
            },
            AngleDirection::CW => {
                if face_up_dest.eq(dest_face.up()) {
                    0
                } else if face_up_dest.eq(dest_face.right()) {
                    1
                } else if face_up_dest.eq(dest_face.down()) {
                    2
                } else {
                    3
                }
            },
        }
    }

    /// The symmetry that undoes `self`.
    #[verifier::when_used_as_spec(spec_invert)]
    pub fn invert(self) -> (r: Self)
        ensures
            r == self.spec_invert(),
            r == Sym::make(self.spec_rot().spec_invert(), self.spec_is_reflected()),
    {
        proof {
            lemma_invert_parts(self);
        }
        Sym::IDENTITY.transform_by_inverse(self)
    }

    /// The symmetry that takes `self` to `other`:
    /// `self.transform_by(self.diff(other)) == other`.
    pub fn diff(self, other: Self) -> (r: Self)
        ensures
            r == self.spec_invert().spec_transform_by(other),
    {
        self.invert().transform_by(other)
    }

    /// The conjugate of `transform` by `self`: `self.invert()`, then
    /// `transform`, then `self`.
    pub fn conjugate(self, transform: Self) -> (r: Self)
        ensures
            r == self.spec_invert().spec_transform_by(transform).spec_transform_by(self),
    {
        self.invert().transform_by(transform).transform_by(self)
    }

    /// The number of steps after which the symmetry returns to the
    /// identity.
    pub fn count_cycles(self) -> (r: SymCycleCount)
        ensures
            r.spec_count() == self.cycle_len(),
    {
        proof {
            law_sym_cycle_len(self);
            lemma_sym_pow_succ(self, 0);
        }
        let mut count: u8 = 1;
        let mut current = Sym::IDENTITY;
        loop
            invariant_except_break
                current == self.pow((count - 1) as nat),
            invariant
                1 <= count <= self.cycle_len(),
                self.cycle_len() <= 6,
                self.pow(self.cycle_len()) == Sym::IDENTITY,
                forall|j: nat| 1 <= j < self.cycle_len() ==> self.pow(j) != Sym::IDENTITY,
                self.cycle_len() == 1 || self.cycle_len() == 2 || self.cycle_len() == 3
                    || self.cycle_len() == 4 || self.cycle_len() == 6,
            ensures
                count == self.cycle_len(),
            decreases 6 - count,
        {
            proof {
                lemma_sym_pow_succ(self, (count - 1) as nat);
            }
            current = current.transform_by(self);
            if current.eq(Sym::IDENTITY) {
                break ;
            }
            count = count + 1;
        }
        SymCycleCount::from_u8_unchecked(count)
    }

    // --- MISCELLANEOUS ---
    /// Iterate symmetries in the order of their numbers.
    pub fn iter() -> (r: SymIter)
        ensures
            r.position() == 0,
    {
        SymIter::new()
    }

    /// Ordered iteration over all tuples of `PRODUCTS` symmetries.
    pub fn cartesian_product<const PRODUCTS: usize>() -> (r: CartesianSymIter<PRODUCTS>)
        ensures
            forall|i: int| 0 <= i < PRODUCTS ==> #[trigger] r.digits()[i] == 0,
            r.digits().len() == PRODUCTS,
    {
        CartesianSymIter::new()
    }

    /// Check `self` is equal to `other`.
    pub fn eq(self, other: Self) -> (r: bool)
        ensures
            r == (self == other),
    {
        self.as_u8() == other.as_u8()
    }

    /// Check `self` is not equal to `other`.
    pub fn ne(self, other: Self) -> (r: bool)
        ensures
            r == (self != other),
    {
        self.as_u8() != other.as_u8()
    }
}

} // verus!

verus! {

// --- STRUCTURE OF THE SYMMETRIES ---
/// A symmetry is made of its rotation and its reflection flag, and these
/// can be chosen freely.
pub proof fn lemma_make_parts(rot: Rot, reflected: bool)
    ensures
        Sym::make(rot, reflected).spec_rot() == rot,
        Sym::make(rot, reflected).spec_is_reflected() == reflected,
{
}

/// A symmetry is the one made of its parts.
pub proof fn lemma_parts_make(s: Sym)
    ensures
        Sym::make(s.spec_rot(), s.spec_is_reflected()) == s,
        s.spec_as_u8() < 48,
        Sym::from_code(s.spec_as_u8() as int) == s,
{
}

/// The inversion is its own inverse.
proof fn lemma_invert_twice(f: Face)
    ensures
        f.spec_invert().spec_invert() == f,
{
}

/// `transform_by` combines the rotations and the reflection flags.
pub proof fn lemma_transform_by_parts(t: Sym, tr: Sym)
    ensures
        t.spec_transform_by(tr) == Sym::make(
            t.spec_rot().spec_rotate_by(tr.spec_rot()),
            t.spec_is_reflected() != tr.spec_is_reflected(),
        ),
{
    reveal(Sym::spec_transform_by);
    reveal(Rot::spec_rotate_by);
    let a = t.spec_rot();
    let b = tr.spec_rot();
    lemma_dest_invert(a, Face::UP);
    lemma_dest_invert(a, Face::FORWARD);
    lemma_dest_invert(b, a.spec_face_dest(Face::UP));
    lemma_dest_invert(b, a.spec_face_dest(Face::FORWARD));
    lemma_dest_invert(b, a.spec_face_dest(Face::UP).spec_invert());
    lemma_dest_invert(b, a.spec_face_dest(Face::FORWARD).spec_invert());
    lemma_invert_twice(b.spec_face_dest(a.spec_face_dest(Face::UP)));
    lemma_invert_twice(b.spec_face_dest(a.spec_face_dest(Face::FORWARD)));
    lemma_invert_twice(a.spec_face_dest(Face::UP));
    lemma_invert_twice(a.spec_face_dest(Face::FORWARD));
}

/// `transform_by_inverse` combines the rotations (the second one
/// inverted) and the reflection flags.
pub proof fn lemma_transform_by_inverse_parts(t: Sym, tr: Sym)
    ensures
        t.spec_transform_by_inverse(tr) == Sym::make(
            t.spec_rot().spec_rotate_by_inverse(tr.spec_rot()),
            t.spec_is_reflected() != tr.spec_is_reflected(),
        ),
{
    reveal(Sym::spec_transform_by_inverse);
    reveal(Rot::spec_rotate_by_inverse);
    let a = t.spec_rot();
    let b = tr.spec_rot();
    lemma_dest_invert(a, Face::UP);
    lemma_dest_invert(a, Face::FORWARD);
    lemma_src_invert(b, a.spec_face_dest(Face::UP));
    lemma_src_invert(b, a.spec_face_dest(Face::FORWARD));
    lemma_src_invert(b, a.spec_face_dest(Face::UP).spec_invert());
    lemma_src_invert(b, a.spec_face_dest(Face::FORWARD).spec_invert());
    lemma_invert_twice(b.spec_face_src(a.spec_face_dest(Face::UP)));
    lemma_invert_twice(b.spec_face_src(a.spec_face_dest(Face::FORWARD)));
    lemma_invert_twice(a.spec_face_dest(Face::UP));
    lemma_invert_twice(a.spec_face_dest(Face::FORWARD));
}

/// The inverse keeps the reflection flag and inverts the rotation.
pub proof fn lemma_invert_parts(s: Sym)
    ensures
        s.spec_invert() == Sym::make(s.spec_rot().spec_invert(), s.spec_is_reflected()),
{
    lemma_transform_by_inverse_parts(Sym::IDENTITY, s);
}

/// `transform_by` composes the face maps: first `t`, then `tr`.
pub proof fn lemma_transform_by_dest(t: Sym, tr: Sym, f: Face)
    ensures
        t.spec_transform_by(tr).spec_face_dest(f) == tr.spec_face_dest(t.spec_face_dest(f)),
{
    lemma_transform_by_parts(t, tr);
    let a = t.spec_rot();
    let b = tr.spec_rot();
    lemma_make_parts(a.spec_rotate_by(b), t.spec_is_reflected() != tr.spec_is_reflected());
    lemma_rotate_by_dest(a, b, f);
    lemma_rotate_by_dest(a, b, f.spec_invert());
    lemma_dest_invert(a, f);
    lemma_dest_invert(a, f.spec_invert());
    lemma_dest_invert(b, a.spec_face_dest(f));
    lemma_dest_invert(b, a.spec_face_dest(f.spec_invert()));
    lemma_invert_twice(f);
}

/// Two symmetries are equal when their rotations and reflection flags
/// are.
proof fn lemma_parts_eq(s1: Sym, s2: Sym)
    requires
        s1.spec_rot() == s2.spec_rot(),
        s1.spec_is_reflected() == s2.spec_is_reflected(),
    ensures
        s1 == s2,
{
    lemma_parts_make(s1);
    lemma_parts_make(s2);
}

// --- LAWS ---
/// A face carried by a symmetry is brought back by its source map, and
/// the other way round.
pub proof fn law_sym_face_round_trip(s: Sym, f: Face)
    ensures
        s.spec_face_src(s.spec_face_dest(f)) == f,
        s.spec_face_dest(s.spec_face_src(f)) == f,
{
    let g = if s.spec_is_reflected() { f.spec_invert() } else { f };
    law_face_round_trip(s.spec_rot(), g);
    law_face_round_trip(s.spec_rot(), f);
    lemma_invert_twice(f);
    lemma_invert_twice(s.spec_rot().spec_face_src(f));
}

/// The rotation of a symmetry carries Up and Forward where the symmetry
/// does, up to the inversion.
pub proof fn law_sym_rot_up_forward(s: Sym)
    ensures
        s.spec_rot().spec_face_dest(Face::UP) == (if s.spec_is_reflected() {
            s.spec_face_dest(Face::UP).spec_invert()
        } else {
            s.spec_face_dest(Face::UP)
        }),
        s.spec_rot().spec_face_dest(Face::FORWARD) == (if s.spec_is_reflected() {
            s.spec_face_dest(Face::FORWARD).spec_invert()
        } else {
            s.spec_face_dest(Face::FORWARD)
        }),
{
    lemma_dest_invert(s.spec_rot(), Face::UP);
    lemma_dest_invert(s.spec_rot(), Face::FORWARD);
    lemma_invert_twice(s.spec_rot().spec_face_dest(Face::UP));
    lemma_invert_twice(s.spec_rot().spec_face_dest(Face::FORWARD));
}

/// Transforming is associative.
pub proof fn law_sym_transform_by_associative(a: Sym, b: Sym, c: Sym)
    ensures
        a.spec_transform_by(b).spec_transform_by(c) == a.spec_transform_by(b.spec_transform_by(c)),
{
    let ab = a.spec_transform_by(b);
    let bc = b.spec_transform_by(c);
    lemma_transform_by_parts(a, b);
    lemma_transform_by_parts(b, c);
    lemma_transform_by_parts(ab, c);
    lemma_transform_by_parts(a, bc);
    lemma_make_parts(a.spec_rot().spec_rotate_by(b.spec_rot()), a.spec_is_reflected() != b.spec_is_reflected());
    lemma_make_parts(b.spec_rot().spec_rotate_by(c.spec_rot()), b.spec_is_reflected() != c.spec_is_reflected());
    law_rotate_by_associative(a.spec_rot(), b.spec_rot(), c.spec_rot());
    lemma_parts_eq(ab.spec_transform_by(c), a.spec_transform_by(bc));
}

/// The identity is neutral on both sides of `transform_by`.
pub proof fn law_sym_transform_by_identity(a: Sym)
    ensures
        a.spec_transform_by(Sym::IDENTITY) == a,
        Sym::IDENTITY.spec_transform_by(a) == a,
{
    lemma_transform_by_parts(a, Sym::IDENTITY);
    lemma_transform_by_parts(Sym::IDENTITY, a);
    law_rotate_by_identity(a.spec_rot());
    lemma_parts_make(a);
}

/// Transforming by the inverse of `b` is transforming by `b.invert()`, and
/// it undoes a transformation by `b`.
pub proof fn law_sym_transform_by_inverse(a: Sym, b: Sym)
    ensures
        a.spec_transform_by_inverse(b) == a.spec_transform_by(b.spec_invert()),
        a.spec_transform_by(b).spec_transform_by_inverse(b) == a,
        a.spec_transform_by_inverse(b).spec_transform_by(b) == a,
{
    let ab = a.spec_transform_by(b);
    let aib = a.spec_transform_by_inverse(b);
    lemma_transform_by_parts(a, b);
    lemma_transform_by_inverse_parts(a, b);
    lemma_invert_parts(b);
    lemma_make_parts(b.spec_rot().spec_invert(), b.spec_is_reflected());
    lemma_transform_by_parts(a, b.spec_invert());
    law_rotate_by_inverse(a.spec_rot(), b.spec_rot());
    lemma_make_parts(a.spec_rot().spec_rotate_by(b.spec_rot()), a.spec_is_reflected() != b.spec_is_reflected());
    lemma_make_parts(
        a.spec_rot().spec_rotate_by_inverse(b.spec_rot()),
        a.spec_is_reflected() != b.spec_is_reflected(),
    );
    lemma_transform_by_inverse_parts(ab, b);
    lemma_transform_by_parts(aib, b);
    lemma_parts_eq(ab.spec_transform_by_inverse(b), a);
    lemma_parts_eq(aib.spec_transform_by(b), a);
}

/// The inverse undoes a symmetry, on either side.
pub proof fn law_sym_invert(a: Sym)
    ensures
        a.spec_invert().spec_transform_by(a) == Sym::IDENTITY,
        a.spec_transform_by(a.spec_invert()) == Sym::IDENTITY,
        a.spec_invert().spec_invert() == a,
{
    let v = a.spec_invert();
    lemma_invert_parts(a);
    lemma_make_parts(a.spec_rot().spec_invert(), a.spec_is_reflected());
    lemma_invert_parts(v);
    lemma_transform_by_parts(v, a);
    lemma_transform_by_parts(a, v);
    law_invert(a.spec_rot());
    lemma_make_parts(Rot::IDENTITY, false);
    lemma_make_parts(a.spec_rot().spec_invert().spec_invert(), a.spec_is_reflected());
    lemma_parts_eq(v.spec_transform_by(a), Sym::IDENTITY);
    lemma_parts_eq(a.spec_transform_by(v), Sym::IDENTITY);
    lemma_parts_eq(v.spec_invert(), a);
}

/// Transforming `a` by `a.diff(b)` gives `b`.
pub proof fn law_sym_diff(a: Sym, b: Sym)
    ensures
        a.spec_transform_by(a.spec_invert().spec_transform_by(b)) == b,
{
    law_sym_transform_by_associative(a, a.spec_invert(), b);
    law_sym_invert(a);
    law_sym_transform_by_identity(b);
}

/// Transforming `a` locally by `b` is transforming `a` by the conjugate
/// of `b` by `a`.
pub proof fn law_sym_conjugate(a: Sym, b: Sym)
    ensures
        b.spec_transform_by(a) == a.spec_transform_by(
            a.spec_invert().spec_transform_by(b).spec_transform_by(a),
        ),
{
    let v = a.spec_invert();
    law_sym_transform_by_associative(a, v.spec_transform_by(b), a);
    law_sym_transform_by_associative(a, v, b);
    law_sym_invert(a);
    law_sym_transform_by_identity(b);
}

/// The powers of a symmetry are the powers of its rotation, reflected
/// for odd exponents of a reflected symmetry.
pub proof fn lemma_sym_pow_parts(s: Sym, n: nat)
    ensures
        s.pow(n) == Sym::make(s.spec_rot().pow(n), s.spec_is_reflected() && n % 2 == 1),
    decreases n,
{
    reveal_with_fuel(Sym::pow, 2);
    lemma_pow_succ(s.spec_rot(), 0);
    if n == 0 {
        lemma_parts_eq(Sym::IDENTITY, Sym::make(Rot::IDENTITY, false));
        lemma_make_parts(Rot::IDENTITY, false);
    } else {
        let k = (n - 1) as nat;
        lemma_sym_pow_parts(s, k);
        lemma_transform_by_parts(s.pow(k), s);
        lemma_make_parts(s.spec_rot().pow(k), s.spec_is_reflected() && k % 2 == 1);
        lemma_pow_succ(s.spec_rot(), k);
    }
}

/// The numbers `0..48` name each symmetry exactly once, so [Sym::iter]
/// visits every symmetry once.
pub proof fn law_sym_codes(n: int)
    requires
        0 <= n < 48,
    ensures
        Sym::from_code(n).spec_as_u8() == n,
{
}

/// The quarter-turn symmetries are the quarter-turn rotations, without
/// reflection; [Sym::IDENTITY] and [Sym::REFLECTED] are the identity
/// rotation without and with the inversion.
pub proof fn law_sym_constants()
    ensures
        Sym::ROTATE_X == Sym::make(Rot::quarter_turn_x(), false),
        Sym::ROTATE_Y == Sym::make(Rot::quarter_turn_y(), false),
        Sym::ROTATE_Z == Sym::make(Rot::quarter_turn_z(), false),
        Sym::IDENTITY == Sym::make(Rot::IDENTITY, false),
        Sym::REFLECTED == Sym::make(Rot::IDENTITY, true),
        Sym::MAX == Sym::make(Rot::MAX, true),
{
}

/// A symmetry carries orthogonal faces to orthogonal faces.
pub proof fn lemma_sym_dest_orthogonal(s: Sym, a: Face, b: Face)
    ensures
        orthogonal(a, b) == orthogonal(s.spec_face_dest(a), s.spec_face_dest(b)),
{
    lemma_dest_orthogonal(s.spec_rot(), a, b);
    lemma_dest_orthogonal(s.spec_rot(), a.spec_invert(), b.spec_invert());
}

/// One more step of [Sym::pow].
pub proof fn lemma_sym_pow_succ(s: Sym, n: nat)
    ensures
        s.pow(n + 1) == s.pow(n).spec_transform_by(s),
        s.pow(0) == Sym::IDENTITY,
{
    reveal_with_fuel(Sym::pow, 2);
}

/// A power of a symmetry is the identity exactly when the rotation's
/// power is and the reflections cancel.
proof fn lemma_sym_pow_identity_iff(s: Sym, n: nat)
    ensures
        (s.pow(n) == Sym::IDENTITY) <==> (n % s.spec_rot().cycle_len() == 0 && (
        !s.spec_is_reflected() || n % 2 == 0)),
{
    lemma_sym_pow_parts(s, n);
    lemma_pow_identity_iff(s.spec_rot(), n);
    lemma_make_parts(s.spec_rot().pow(n), s.spec_is_reflected() && n % 2 == 1);
    lemma_make_parts(Rot::IDENTITY, false);
    lemma_parts_eq(Sym::IDENTITY, Sym::make(Rot::IDENTITY, false));
}

/// Every symmetry returns to the identity after [Sym::cycle_len] steps,
/// which is 1, 2, 3, 4 or 6.
pub proof fn law_sym_cycle_len(s: Sym)
    ensures
        s.cycle_len() == 1 || s.cycle_len() == 2 || s.cycle_len() == 3 || s.cycle_len() == 4
            || s.cycle_len() == 6,
        s.pow(s.cycle_len()) == Sym::IDENTITY,
        forall|j: nat| 1 <= j < s.cycle_len() ==> s.pow(j) != Sym::IDENTITY,
{
    law_cycle_len(s.spec_rot());
    lemma_sym_pow_identity_iff(s, 1);
    lemma_sym_pow_identity_iff(s, 2);
    lemma_sym_pow_identity_iff(s, 3);
    lemma_sym_pow_identity_iff(s, 4);
    lemma_sym_pow_identity_iff(s, 5);
    lemma_sym_pow_identity_iff(s, 6);
    let len = s.spec_rot().cycle_len();
    if len == 1 {
        assert(1nat % 1 == 0 && 2nat % 1 == 0);
    } else if len == 2 {
        assert(1nat % 2 == 1 && 2nat % 2 == 0 && 4nat % 2 == 0);
    } else if len == 3 {
        assert(1nat % 3 == 1 && 2nat % 3 == 2 && 3nat % 3 == 0 && 4nat % 3 == 1 && 5nat % 3 == 2
            && 6nat % 3 == 0);
    } else {
        assert(1nat % 4 == 1 && 2nat % 4 == 2 && 3nat % 4 == 3 && 4nat % 4 == 0);
    }
}

} // verus!

verus! {

impl Rot {
    /// The symmetry made of this rotation alone.
    pub fn sym(self) -> (r: Sym)
        ensures
            r == Sym::make(self, false),
    {
        Sym::new(self, false)
    }

    /// The symmetry made of the inversion followed by this rotation.
    pub fn reflect(self) -> (r: Sym)
        ensures
            r == Sym::make(self, true),
    {
        Sym::new(self, true)
    }
}

/// The number of steps after which a symmetry returns to the identity.
#[derive(Debug, Clone, Copy, PartialEq, Eq, Structural, PartialOrd, Ord, Hash)]
pub enum SymCycleCount {
    C1,
    C2,
    C3,
    C4,
    C6,
}

/// Whether `value` is one of the cycle counts 1, 2, 3, 4 and 6.
pub open spec fn is_sym_cycle_count(value: int) -> bool {
    value == 1 || value == 2 || value == 3 || value == 4 || value == 6
}

impl SymCycleCount {
    /// The count.
    pub open spec fn spec_count(self) -> nat {
        match self {
            SymCycleCount::C1 => 1,
            SymCycleCount::C2 => 2,
            SymCycleCount::C3 => 3,
            SymCycleCount::C4 => 4,
            SymCycleCount::C6 => 6,
        }
    }

    /// The cycle count for `value`, which must be 1, 2, 3, 4 or 6.
    pub fn from_u8_unchecked(value: u8) -> (r: Self)
        requires
            is_sym_cycle_count(value as int),
        ensures
            r.spec_count() == value,
    {
        match value {
            1 => SymCycleCount::C1,
            2 => SymCycleCount::C2,
            3 => SymCycleCount::C3,
            4 => SymCycleCount::C4,
            _ => SymCycleCount::C6,
        }
    }

    /// The bitmask with one bit for each of `items`.
    fn make_bits(items: [SymCycleCount; 5]) -> (bits: u8)
        requires
            forall|i: int| 0 <= i < 5 ==> #[trigger] items@[i].spec_count() < 8,
        ensures
            forall|j: u8|
                j < 8 ==> (#[trigger] ((bits >> j) & 1) == 1 <==> exists|i: int|
                    0 <= i < 5 && items@[i].spec_count() == j),
    {
        let mut bits = 0u8;
        let mut i: usize = 0;
        assert(forall|j: u8| j < 8 ==> #[trigger] ((0u8 >> j) & 1) == 0) by (bit_vector);
        while i < 5
            invariant
                i <= 5,
                forall|i: int| 0 <= i < 5 ==> #[trigger] items@[i].spec_count() < 8,
                forall|j: u8|
                    j < 8 ==> (#[trigger] ((bits >> j) & 1) == 1 <==> exists|k: int|
                        0 <= k < i && items@[k].spec_count() == j),
            decreases 5 - i,
        {
            let k = items[i].count();
            let old_bits = bits;
            bits = bits | (1u8 << k);
            proof {
                assert forall|j: u8| j < 8 implies (#[trigger] ((bits >> j) & 1) == 1 <==> exists|
                    m: int,
                | 0 <= m < i + 1 && items@[m].spec_count() == j) by {
                    crate::face::lemma_u8_bit_set(old_bits, k, j);
                    if j == k {
                        assert(items@[i as int].spec_count() == j);
                    }
                }
            }
            i = i + 1;
        }
        bits
    }

    /// The cycle count for `value` when it is 1, 2, 3, 4 or 6; [None]
    /// otherwise. `value` must be below 8.
    pub fn from_u8(value: u8) -> (r: Option<Self>)
        requires
            value < 8,
        ensures
            r is Some <==> is_sym_cycle_count(value as int),
            r is Some ==> r->0.spec_count() == value,
    {
        let bits = Self::make_bits(
            [SymCycleCount::C1, SymCycleCount::C2, SymCycleCount::C3, SymCycleCount::C4, SymCycleCount::C6],
        );
        proof {
            crate::face::lemma_u8_bit_set(bits, value, value);
        }
        if bits & (1u8 << value) == 0 {
            proof {
                if is_sym_cycle_count(value as int) {
                    let items = [SymCycleCount::C1, SymCycleCount::C2, SymCycleCount::C3, SymCycleCount::C4, SymCycleCount::C6];
                    if value == 1 { assert(items@[0].spec_count() == value); }
                    if value == 2 { assert(items@[1].spec_count() == value); }
                    if value == 3 { assert(items@[2].spec_count() == value); }
                    if value == 4 { assert(items@[3].spec_count() == value); }
                    if value == 6 { assert(items@[4].spec_count() == value); }
                }
            }
            return None;
        }
        Some(Self::from_u8_unchecked(value))
    }

    /// The count as a [u8].
    pub fn count(self) -> (r: u8)
        ensures
            r == self.spec_count(),
    {
        match self {
            SymCycleCount::C1 => 1,
            SymCycleCount::C2 => 2,
            SymCycleCount::C3 => 3,
            SymCycleCount::C4 => 4,
            SymCycleCount::C6 => 6,
        }
    }
}

/// A lookup table for values associated with each [Sym], indexed by
/// [Sym::as_u8].
#[derive(Debug, Clone, Copy)]
pub struct SymTable<T: Copy = Sym>(pub [T; 48]);

impl<T: Copy> SymTable<T> {
    /// The value stored for `sym`.
    pub open spec fn at(self, sym: Sym) -> T {
        self.0@[sym.spec_as_u8() as int]
    }

    /// Create a new [SymTable] from the given array.
    pub fn new(table: [T; 48]) -> (r: Self)
        ensures
            r.0 == table,
    {
        SymTable(table)
    }

    /// Set the `value` for the given `sym`.
    pub fn set(&mut self, sym: Sym, value: T)
        ensures
            final(self).0@ == old(self).0@.update(sym.spec_as_u8() as int, value),
    {
        self.0[sym.as_u8() as usize] = value;
    }

    /// Get the value stored for the given `sym`.
    pub fn get(&self, sym: Sym) -> (r: T)
        ensures
            r == self.at(sym),
    {
        self.0[sym.as_u8() as usize]
    }
}

/// An iterator of each [Sym] in the order of their numbers.
#[derive(Debug, Clone)]
pub struct SymIter {
    it: u8,
}

impl SymIter {
    /// How many symmetries the iterator has passed.
    pub closed spec fn position(self) -> int {
        self.it as int
    }

    /// Create a new [SymIter], starting with [Sym::IDENTITY].
    pub fn new() -> (r: Self)
        ensures
            r.position() == 0,
    {
        SymIter { it: 0 }
    }

    /// Get the current [Sym], unless the iterator is exhausted.
    pub fn current(&self) -> (r: Option<Sym>)
        ensures
            self.position() < 48 ==> r == Some(Sym::from_code(self.position())),
            self.position() >= 48 ==> r is None,
    {
        Sym::from_u8(self.it)
    }

    /// Continue iteration, returning the current [Sym] in the process.
    pub fn next(&mut self) -> (r: Option<Sym>)
        ensures
            old(self).position() < 48 ==> r == Some(Sym::from_code(old(self).position()))
                && final(self).position() == old(self).position() + 1,
            old(self).position() >= 48 ==> r is None && final(self).position() == old(
                self,
            ).position(),
    {
        match self.current() {
            None => None,
            some => {
                self.it = self.it + 1;
                some
            },
        }
    }
}

} // verus!

verus! {

/// Ordered iteration over all tuples of `PRODUCTS` [Sym] values, in
/// the manner of an odometer: the last position increases first.
#[derive(Debug)]
pub struct CartesianSymIter<const PRODUCTS: usize> {
    it: [u8; PRODUCTS],
}

impl<const PRODUCTS: usize> CartesianSymIter<PRODUCTS> {
    #[verifier::type_invariant]
    spec fn wf(self) -> bool {
        &&& forall|i: int| 0 < i < PRODUCTS ==> #[trigger] self.it@[i] <= 47
        &&& PRODUCTS > 0 ==> self.it@[0] <= 48
        &&& PRODUCTS > 0 && self.it@[0] > 47 ==> forall|i: int|
            0 < i < PRODUCTS ==> #[trigger] self.it@[i] == 0
    }

    /// How many tuples the iterator has passed: the digits, read as a
    /// number in base 48.
    pub closed spec fn count(self) -> int {
        digits_value(self.it@, 48)
    }

    /// The numbers of the current tuple, one per position.
    pub closed spec fn digits(self) -> Seq<u8> {
        self.it@
    }

    /// Whether every tuple has been visited.
    pub open spec fn exhausted(self) -> bool {
        PRODUCTS == 0 || self.digits()[0] > 47
    }

    /// The current tuple, as values.
    pub open spec fn tuple(self) -> Seq<Sym> {
        Seq::new(PRODUCTS as nat, |i: int| Sym::from_code(self.digits()[i] as int))
    }

    /// Create an iterator that starts with the tuple of lowest numbers.
    pub fn new() -> (r: Self)
        ensures
            r.digits().len() == PRODUCTS,
            forall|i: int| 0 <= i < PRODUCTS ==> #[trigger] r.digits()[i] == 0,
            r.count() == 0,
            PRODUCTS > 0 ==> !r.exhausted(),
    {
        let r = CartesianSymIter { it: [0u8; PRODUCTS] };
        proof {
            lemma_zero_value(r.it@, 48);
        }
        r
    }

    /// The tuple for the given digits.
    fn make_tuple(&self) -> (r: [Sym; PRODUCTS])
        requires
            !self.exhausted(),
        ensures
            r@ == self.tuple(),
    {
        proof {
            use_type_invariant(self);
        }
        let mut out = [Sym::IDENTITY; PRODUCTS];
        let mut i: usize = 0;
        while i < PRODUCTS
            invariant
                i <= PRODUCTS,
                out@.len() == PRODUCTS,
                self.it@.len() == PRODUCTS,
                !self.exhausted(),
                forall|j: int| 0 < j < PRODUCTS ==> #[trigger] self.it@[j] <= 47,
                forall|j: int| 0 <= j < i ==> #[trigger] out@[j] == Sym::from_code(
                    self.it@[j] as int,
                ),
            decreases PRODUCTS - i,
        {
            out[i] = Sym::from_u8_unchecked(self.it[i]);
            i = i + 1;
        }
        assert(out@ =~= self.tuple());
        out
    }

    /// Get the current tuple, unless the iterator is exhausted.
    pub fn current(&mut self) -> (r: Option<[Sym; PRODUCTS]>)
        ensures
            *final(self) == *old(self),
            old(self).exhausted() ==> r is None,
            !old(self).exhausted() ==> r is Some && r->0@ == old(self).tuple(),
            !old(self).exhausted() ==> r->0@ == sym_tuple_at(PRODUCTS as nat, old(self).count()),
            0 <= old(self).count() <= pow(48, PRODUCTS as nat),
            old(self).exhausted() <==> (PRODUCTS == 0 || old(self).count() == pow(
                48,
                PRODUCTS as nat,
            )),
    {
        proof {
            use_type_invariant(&*self);
            lemma_counter_state(self.it@, 48);
            if !self.exhausted() {
                assert(sym_tuple_at(PRODUCTS as nat, self.count()) =~= self.tuple());
            }
        }
        if PRODUCTS == 0 {
            return None;
        }
        if self.it[0] > 47 {
            return None;
        }
        Some(self.make_tuple())
    }

    /// Continue iteration, returning the current tuple in the process.
    ///
    /// The position `k` that is increased is the last one below 47
    /// (or the first position); the positions after it go back to 0.
    pub fn next(&mut self) -> (r: Option<[Sym; PRODUCTS]>)
        ensures
            old(self).exhausted() ==> r is None && *final(self) == *old(self),
            !old(self).exhausted() ==> r is Some && r->0@ == old(self).tuple() && exists|k: int|
                {
                    &&& 0 <= k < PRODUCTS
                    &&& (k == 0 || old(self).digits()[k] < 47)
                    &&& final(self).digits()[k] == old(self).digits()[k] + 1
                    &&& forall|j: int| 0 <= j < k ==> #[trigger] final(self).digits()[j] == old(
                        self,
                    ).digits()[j]
                    &&& forall|j: int|
                        k < j < PRODUCTS ==> #[trigger] final(self).digits()[j] == 0 && old(
                            self,
                        ).digits()[j] == 47
                },
            final(self).digits().len() == PRODUCTS,
            !old(self).exhausted() ==> r->0@ == sym_tuple_at(PRODUCTS as nat, old(self).count())
                && final(self).count() == old(self).count() + 1,
            0 <= old(self).count() <= pow(48, PRODUCTS as nat),
            old(self).exhausted() <==> (PRODUCTS == 0 || old(self).count() == pow(
                48,
                PRODUCTS as nat,
            )),
            0 <= final(self).count() <= pow(48, PRODUCTS as nat),
            final(self).exhausted() <==> (PRODUCTS == 0 || final(self).count() == pow(
                48,
                PRODUCTS as nat,
            )),
    {
        proof {
            use_type_invariant(&*self);
            lemma_counter_state(self.it@, 48);
            if !self.exhausted() {
                assert(sym_tuple_at(PRODUCTS as nat, self.count()) =~= self.tuple());
            }
        }
        if PRODUCTS == 0 {
            return None;
        }
        if self.it[0] > 47 {
            return None;
        }
        let result = Some(self.make_tuple());
        let ghost old_it = self.it@;
        let mut it = self.it;
        let mut i: usize = PRODUCTS;
        loop
            invariant_except_break
                0 < i <= PRODUCTS,
                old_it[0] <= 47,
                forall|j: int| 0 < j < PRODUCTS ==> #[trigger] old_it[j] <= 47,
                forall|j: int| 0 <= j < i ==> #[trigger] it@[j] == old_it[j],
                forall|j: int| i <= j < PRODUCTS ==> #[trigger] it@[j] == 0,
                forall|j: int| i <= j < PRODUCTS ==> #[trigger] old_it[j] == 47,
            invariant
                it@.len() == PRODUCTS,
                old_it.len() == PRODUCTS,
            ensures
                0 <= i < PRODUCTS,
                it@.len() == PRODUCTS,
                i == 0 || old_it[i as int] < 47,
                it@[i as int] == old_it[i as int] + 1,
                forall|j: int| 0 <= j < i ==> #[trigger] it@[j] == old_it[j],
                forall|j: int| i < j < PRODUCTS ==> #[trigger] it@[j] == 0,
                forall|j: int| i < j < PRODUCTS ==> #[trigger] old_it[j] == 47,
            decreases i,
        {
            i = i - 1;
            if i == 0 || it[i] < 47 {
                it[i] = it[i] + 1;
                break ;
            }
            it[i] = 0;
        }
        proof {
            lemma_step_value(old_it, it@, i as int, 48);
            lemma_counter_state(it@, 48);
        }
        self.it = it;
        proof {
            let k = i as int;
            assert(final(self).digits()[k] == old(self).digits()[k] + 1);
        }
        result
    }
}

} // verus!


verus! {

impl<const PRODUCTS: usize> Clone for CartesianSymIter<PRODUCTS> {
    fn clone(&self) -> (r: Self)
        ensures
            r.digits() == self.digits(),
    {
        proof {
            use_type_invariant(self);
        }
        CartesianSymIter { it: self.it }
    }
}

} // verus!

verus! {

/// The tuple that the cartesian iterator of `p` positions returns as its
/// `n`-th (counting from 0): position `j` holds the [Sym] numbered by
/// digit `j` of `n` in base 48, so the last position changes fastest.
pub open spec fn sym_tuple_at(p: nat, n: int) -> Seq<Sym> {
    digits_of(n, 48, p).map_values(|d: u8| Sym::from_code(d as int))
}

/// The cartesian iterator of `p` positions returns every tuple of `p`
/// values exactly once: the tuples numbered `0` to `48^p - 1` are all
/// different, each tuple of `p` values is one of them, and the value at
/// the last position of tuple `n` is the one numbered `n % 48`. (Its
/// `next` returns tuple `count()` and adds one to `count()`, from 0 up to
/// `48^p`, where it returns [None] from then on.)
pub proof fn law_sym_cartesian_enumeration(p: nat, i: int, j: int, t: Seq<Sym>)
    ensures
        sym_tuple_at(p, i).len() == p,
        0 <= i < j < pow(48, p) ==> sym_tuple_at(p, i) != sym_tuple_at(p, j),
        t.len() == p ==> exists|k: int| 0 <= k < pow(48, p) && #[trigger] sym_tuple_at(p, k) == t,
        p > 0 && 0 <= i ==> sym_tuple_at(p, i)[p - 1] == Sym::from_code(i % 48),
{
    lemma_digits_len(i, p);
    if 0 <= i < j < pow(48, p) {
        lemma_digits_of_value(i, 48, p);
        lemma_digits_of_value(j, 48, p);
        let di = digits_of(i, 48, p);
        let dj = digits_of(j, 48, p);
        if sym_tuple_at(p, i) == sym_tuple_at(p, j) {
            assert forall|x: int| 0 <= x < p implies di[x] == dj[x] by {
                assert(sym_tuple_at(p, i)[x] == sym_tuple_at(p, j)[x]);
                law_sym_codes(di[x] as int);
                law_sym_codes(dj[x] as int);
            }
            assert(di =~= dj);
        }
    }
    if t.len() == p {
        let s = Seq::new(p, |x: int| t[x].spec_as_u8());
        assert forall|x: int| 0 <= x < s.len() implies #[trigger] s[x] < 48 by {
            lemma_parts_make(t[x]);
        }
        lemma_value_of_digits(s, 48);
        let k = digits_value(s, 48);
        assert forall|x: int| 0 <= x < p implies #[trigger] sym_tuple_at(p, k)[x] == t[x] by {
            lemma_parts_make(t[x]);
        }
        assert(sym_tuple_at(p, k) =~= t);
    }
    if p > 0 && 0 <= i {
        let d = digits_of(i, 48, p);
        assert(d[p - 1] == (i % 48) as u8);
    }
}

/// `digits_of` has the length asked for.
proof fn lemma_digits_len(n: int, p: nat)
    ensures
        digits_of(n, 48, p).len() == p,
    decreases p,
{
    if p > 0 {
        lemma_digits_len(n / 48, (p - 1) as nat);
    }
}

} // verus!
