use cubesym::{ConjugacyClass, Face, Rot, RotCycleCount, RotTable, determine_conjugacy_class};

fn all_rots() -> Vec<Rot> {
    let mut out = Vec::new();
    let mut it = Rot::iter();
    while let Some(rot) = it.next() {
        out.push(rot);
    }
    out
}

fn all_faces() -> Vec<Face> {
    let mut out = Vec::new();
    let mut it = Face::iter();
    while let Some(face) = it.next() {
        out.push(face);
    }
    out
}

#[test]
fn rotation_round_trip_test() {
    let mut rot_it = Rot::iter();
    while let Some(rot_x) = rot_it.next() {
        let mut face_it = Face::iter();
        while let Some(face) = face_it.next() {
            let dest = rot_x.face_dest(face);
            let src = rot_x.face_src(dest);
            assert_eq!(src, face);
        }
        let inverted = rot_x.invert();
        let rot_inv = inverted.rotate_by(rot_x);
        assert_eq!(rot_inv, Rot::IDENTITY);
        let mut rot_y_it = Rot::iter();
        while let Some(rot_y) = rot_y_it.next() {
            let rotated = rot_x.rotate_by(rot_y);
            let derotated = rotated.rotate_by_inverse(rot_y);
            assert_eq!(rot_x, derotated);
        }
    }
}

#[test]
fn rotation_associativity_test() {
    let mut it = Rot::cartesian_product::<3>();
    while let Some([rot_x, rot_y, rot_z]) = it.next() {
        let a = rot_x.rotate_by(rot_y).rotate_by(rot_z);
        let b = rot_x.rotate_by(rot_y.rotate_by(rot_z));
        assert_eq!(a, b);
    }
}

#[test]
fn rot_iter_visits_all_in_order() {
    let rots = all_rots();
    assert_eq!(rots.len(), 24);
    for (i, rot) in rots.iter().enumerate() {
        assert_eq!(rot.as_u8() as usize, i);
    }
    assert_eq!(rots[0], Rot::IDENTITY);
    assert_eq!(rots[23], Rot::MAX);
}

#[test]
fn rot_numbers() {
    assert_eq!(Rot::from_u8(0), Some(Rot::PY0));
    assert_eq!(Rot::from_u8(9), Some(Rot::NX1));
    assert_eq!(Rot::from_u8(23), Some(Rot::NY3));
    assert_eq!(Rot::from_u8(24), None);
    assert_eq!(Rot::from_u8(255), None);
    assert_eq!(Rot::from_u8_wrapping(25), Rot::PY1);
    assert_eq!(Rot::from_u8_unchecked(12), Rot::PZ0);
    assert_eq!(Rot::new(Face::NegX, 1), Rot::NX1);
    assert_eq!(Rot::new(Face::NegX, 5), Rot::NX1);
    assert_eq!(Rot::new(Face::NegX, -1), Rot::NX3);
    assert_eq!(Rot::from_up(Face::PosZ), Rot::PZ0);
    assert_eq!(Rot::NX1.with_up(Face::PosX), Rot::PX1);
    assert_eq!(Rot::NX1.with_angle(-2), Rot::NX2);
    assert_eq!(Rot::NX3.angle(), 3);
    assert_eq!(Rot::NX3.up_angle(), (Face::NegX, 3));
    assert_eq!(Rot::default(), Rot::IDENTITY);
}

#[test]
fn rot_updates() {
    let mut rot = Rot::NZ2;
    rot.update_up(|face| face.invert());
    assert_eq!(rot, Rot::PZ2);
    rot.update_angle(|angle| angle + 1);
    assert_eq!(rot, Rot::PZ3);
    rot.update_angle(|angle| angle + 1);
    assert_eq!(rot, Rot::PZ0);
}

#[test]
fn rot_face_dest_values() {
    // Carrying Up to Forward with angle 0 turns the cube half way about
    // the axis between Up and Forward: Up and Forward swap, and so do
    // Left and Right, and Down and Backward.
    let rot = Rot::FORWARD;
    assert_eq!(rot.face_dest(Face::UP), Face::FORWARD);
    assert_eq!(rot.face_dest(Face::FORWARD), Face::UP);
    assert_eq!(rot.face_dest(Face::DOWN), Face::BACKWARD);
    assert_eq!(rot.face_dest(Face::RIGHT), Face::LEFT);
    assert_eq!(rot.up(), Face::FORWARD);
    assert_eq!(rot.forward(), Face::UP);
    assert_eq!(rot.right(), Face::LEFT);
    assert_eq!(rot.left(), Face::RIGHT);
    assert_eq!(rot.down(), Face::BACKWARD);
    assert_eq!(rot.backward(), Face::DOWN);
    assert_eq!(rot.up_src(), Face::FORWARD);
    assert_eq!(rot.forward_src(), Face::UP);
    assert_eq!(rot.left_src(), Face::RIGHT);
    assert_eq!(rot.right_src(), Face::LEFT);
    assert_eq!(rot.down_src(), Face::BACKWARD);
    assert_eq!(rot.backward_src(), Face::DOWN);
    assert_eq!(rot.neg_z_dest(), Face::PosY);
    assert_eq!(rot.neg_y_src(), Face::PosZ);
    assert_eq!(rot.pos_x_dest(), Face::NegX);
    assert_eq!(rot.neg_x_dest(), Face::PosX);
    assert_eq!(rot.pos_y_dest(), Face::NegZ);
    assert_eq!(rot.pos_z_dest(), Face::NegY);
    assert_eq!(rot.neg_y_dest(), Face::PosZ);
    assert_eq!(rot.neg_x_src(), Face::PosX);
    assert_eq!(rot.neg_z_src(), Face::PosY);
    assert_eq!(rot.pos_x_src(), Face::NegX);
    assert_eq!(rot.pos_y_src(), Face::NegZ);
    assert_eq!(rot.pos_z_src(), Face::NegY);
    // The quarter turn about +X carries Up to Backward and Forward to Up.
    let qx = Rot::PZ0;
    assert_eq!(qx.face_dest(Face::UP), Face::BACKWARD);
    assert_eq!(qx.face_dest(Face::FORWARD), Face::UP);
    assert_eq!(qx.face_dest(Face::RIGHT), Face::RIGHT);
    for face in all_faces() {
        assert_eq!(Rot::IDENTITY.face_dest(face), face);
        assert_eq!(Rot::IDENTITY.face_src(face), face);
    }
}

#[test]
fn rot_from_up_and_forward() {
    assert_eq!(Rot::from_up_and_forward(Face::UP, Face::FORWARD), Some(Rot::IDENTITY));
    assert_eq!(Rot::from_up_and_forward(Face::UP, Face::UP), None);
    assert_eq!(Rot::from_up_and_forward(Face::UP, Face::DOWN), None);
    for rot in all_rots() {
        assert_eq!(Rot::from_up_and_forward(rot.up(), rot.forward()), Some(rot));
    }
    let mut somes = 0;
    for up in all_faces() {
        for fwd in all_faces() {
            if Rot::from_up_and_forward(up, fwd).is_some() {
                somes += 1;
                assert!(up.is_orthogonal_to(fwd));
            }
        }
    }
    assert_eq!(somes, 24);
}

#[test]
fn rot_identity_and_inverse_laws() {
    for rot in all_rots() {
        assert_eq!(rot.rotate_by(Rot::IDENTITY), rot);
        assert_eq!(Rot::IDENTITY.rotate_by(rot), rot);
        assert_eq!(rot.rotate_by(rot.invert()), Rot::IDENTITY);
        assert_eq!(rot.invert().invert(), rot);
        assert_eq!(rot.rotate_by_self(), rot.rotate_by(rot));
        for other in all_rots() {
            assert_eq!(rot.rotate_by_inverse(other), rot.rotate_by(other.invert()));
            assert_eq!(rot.rotate_by(rot.diff(other)), other);
            assert_eq!(rot.local_rotate_by(other), other.rotate_by(rot));
            assert_eq!(rot.local_rotate_by_inverse(other), other.invert().rotate_by(rot));
            assert_eq!(rot.local_rotate_by(other), rot.rotate_by(rot.conjugate(other)));
            for face in all_faces() {
                assert_eq!(
                    rot.rotate_by(other).face_dest(face),
                    other.face_dest(rot.face_dest(face))
                );
            }
        }
    }
}

#[test]
fn rot_face_angles() {
    assert_eq!(Rot::IDENTITY.src_face_angle(Face::UP), 0);
    assert_eq!(Rot::PY1.src_face_angle(Face::UP), 1);
    assert_eq!(Rot::PY3.dest_face_angle(Face::UP), 3);
    for rot in all_rots() {
        for face in all_faces() {
            let angle = rot.src_face_angle(face);
            assert!((0..4).contains(&angle));
            assert_eq!(face.up_at_angle(angle), rot.face_dest(rot.face_src(face).up()));
            let angle = rot.dest_face_angle(face);
            assert_eq!(rot.face_dest(face).up_at_angle(angle), rot.face_dest(face.up()));
        }
    }
}

#[test]
fn rot_cycle_counts_and_classes() {
    let mut counts = [0usize; 5];
    let mut classes = [0usize; 5];
    for rot in all_rots() {
        let n = rot.cycle_count().count();
        counts[n] += 1;
        let mut p = Rot::IDENTITY;
        for _ in 0..n {
            p = p.rotate_by(rot);
        }
        assert_eq!(p, Rot::IDENTITY);
        let idx = match determine_conjugacy_class(rot) {
            ConjugacyClass::Identity => 0,
            ConjugacyClass::EdgeBinary => 1,
            ConjugacyClass::FaceBinary => 2,
            ConjugacyClass::Ternary => 3,
            ConjugacyClass::Quaternary => 4,
        };
        classes[idx] += 1;
    }
    assert_eq!(counts, [0, 1, 9, 8, 6]);
    // Class sizes as documented: 1, 6, 3, 8, 6.
    assert_eq!(classes, [1, 6, 3, 8, 6]);
    assert_eq!(Rot::IDENTITY.cycle_count(), RotCycleCount::C1);
    assert!(!Rot::IDENTITY.is_orthogonal());
    assert!(Rot::PZ0.is_orthogonal());
}

#[test]
fn rot_cycle_count_numbers() {
    assert_eq!(RotCycleCount::from_u8(0), None);
    assert_eq!(RotCycleCount::from_u8(1), Some(RotCycleCount::C1));
    assert_eq!(RotCycleCount::from_u8(3), Some(RotCycleCount::C3));
    assert_eq!(RotCycleCount::from_u8(4), None);
    assert_eq!(RotCycleCount::from_u8_unchecked(4), RotCycleCount::C4);
    assert_eq!(RotCycleCount::C4.as_u8(), 4);
    assert_eq!(RotCycleCount::C2.count(), 2);
}

#[test]
fn rot_angles() {
    for rot in all_rots() {
        let angles = rot.angles();
        assert_eq!(angles.base(), rot);
        assert_eq!(cubesym::RotAngles::from_rot(rot).base(), rot);
        let n = angles.cycle_count().count() as i8;
        assert_eq!(n as usize, rot.cycle_count().count());
        let mut p = Rot::IDENTITY;
        for k in 0..n {
            assert_eq!(angles.get(k), p);
            assert_eq!(angles.get(k + n), p);
            assert_eq!(angles.get(k - n), p);
            p = p.rotate_by(rot);
        }
        assert_eq!(angles.invert().base(), rot.invert());
    }
    let quad = Rot::PZ0.angles();
    assert_eq!(quad.get(-1), Rot::PZ0.invert());
}

#[test]
fn quarter_turns() {
    let x = Rot::ROTATE_X();
    assert_eq!(x.base(), Rot::PZ0);
    assert_eq!(x.get(0), Rot::IDENTITY);
    assert_eq!(x.get(1), Rot::PZ0);
    assert_eq!(x.get(4), Rot::IDENTITY);
    assert_eq!(x.get(-1), Rot::PZ0.invert());
    assert_eq!(x.invert().base(), Rot::PZ0.invert());
    // The quarter turn keeps its face in place and turns the Up of the
    // face to the Left of the face.
    for (turns, face) in [
        (Rot::ROTATE_X(), Face::PosX),
        (Rot::ROTATE_Y(), Face::PosY),
        (Rot::ROTATE_Z(), Face::PosZ),
    ] {
        let base = turns.base();
        assert_eq!(base.face_dest(face), face);
        assert_eq!(base.face_dest(face.up()), face.left());
        assert_eq!(base.cycle_count(), RotCycleCount::C4);
    }
    assert_eq!(Rot::ROTATE_X_CW().base(), Rot::PZ0.invert());
    assert_eq!(Rot::ROTATE_NEG_Y().base(), Rot::PY1.invert());
    assert_eq!(Rot::ROTATE_NEG_Z_CW().base(), Rot::NX1);
    assert_eq!(Rot::ROTATE_POS_Z_CCW().base(), Rot::NX1);
    let table = Rot::ROTATE_FACE_TABLE();
    assert_eq!(table.get(Face::PosX).base(), Rot::PZ0);
    assert_eq!(table.get(Face::NegX).base(), Rot::PZ0.invert());
    assert_eq!(Rot::ROTATE_FACE_CW_TABLE().get(Face::NegY).base(), Rot::PY1);
    assert_eq!(Rot::ROTATE_FACE_CCW_TABLE().get(Face::PosY).base(), Rot::PY1);
}

#[test]
fn quarter_turn_methods() {
    let rot = Rot::NZ3;
    assert_eq!(rot.rotate_x(1), rot.rotate_by(Rot::PZ0));
    assert_eq!(rot.rotate_x(4), rot);
    assert_eq!(rot.rotate_y_cw(1), rot.rotate_by(Rot::PY1.invert()));
    assert_eq!(rot.rotate_neg_z(2), rot.rotate_by(Rot::NX1.rotate_by(Rot::NX1)));
    assert_eq!(rot.rotate_pos_x_ccw(3), rot.rotate_x(3));
    assert_eq!(rot.local_rotate_z(1), Rot::NX1.rotate_by(rot));
    assert_eq!(rot.local_rotate_neg_y_cw(1), Rot::PY1.rotate_by(rot));
    assert_eq!(rot.rotate_x(1).rotate_x(-1), rot);
}

#[test]
fn rot_tables() {
    let mut table = RotTable::new([0u8; 24]);
    table.set(Rot::PX2, 7);
    assert_eq!(table.get(Rot::PX2), 7);
    assert_eq!(table.get(Rot::PX1), 0);
    table[Rot::NY3] = 5;
    assert_eq!(table[Rot::NY3], 5);
    assert_eq!(table[Rot::PX2], 7);
}

#[test]
fn rot_cartesian_product_order() {
    let mut it = Rot::cartesian_product::<2>();
    assert_eq!(it.current(), Some([Rot::PY0, Rot::PY0]));
    assert_eq!(it.next(), Some([Rot::PY0, Rot::PY0]));
    assert_eq!(it.next(), Some([Rot::PY0, Rot::PY1]));
    let mut n = 2;
    let mut last = None;
    while let Some(pair) = it.next() {
        n += 1;
        last = Some(pair);
    }
    assert_eq!(n, 576);
    assert_eq!(last, Some([Rot::NY3, Rot::NY3]));
    assert_eq!(it.next(), None);
    assert_eq!(it.current(), None);
    let mut empty = Rot::cartesian_product::<0>();
    assert_eq!(empty.next(), None);
}

#[test]
fn rot_eq_ne() {
    assert!(Rot::NX1.eq(Rot::NX1));
    assert!(Rot::NX1.ne(Rot::NX2));
    assert!(!Rot::NX1.ne(Rot::NX1));
}

#[test]
fn rot_cartesian_product_enumeration() {
    let mut it = Rot::cartesian_product::<3>();
    let mut i: usize = 0;
    while let Some([a, b, c]) = it.next() {
        assert_eq!(a.as_u8() as usize, i / (24 * 24));
        assert_eq!(b.as_u8() as usize, (i / 24) % 24);
        assert_eq!(c.as_u8() as usize, i % 24);
        i += 1;
    }
    assert_eq!(i, 24 * 24 * 24);
    assert_eq!(it.next(), None);
}
