use cubesym::{Face, Rot, Sym, SymCycleCount, SymTable};

#[test]
fn symmetry_round_trip_test() {
    let mut sym_it = Sym::iter();
    while let Some(sym) = sym_it.next() {
        let mut face_it = Face::iter();
        while let Some(face) = face_it.next() {
            let src = sym.face_src(face);
            let dest = sym.face_dest(src);
            assert_eq!(face, dest);
            let dest = sym.face_dest(face);
            let src = sym.face_src(dest);
            assert_eq!(face, src);
        }
        let rot_up = sym.rot().up();
        let rot_fwd = sym.rot().forward();
        let sym_up = sym.face_dest(Face::UP);
        let sym_fwd = sym.face_dest(Face::FORWARD);
        let inv_up = sym_up.invert_if(sym.is_reflected());
        let inv_fwd = sym_fwd.invert_if(sym.is_reflected());
        assert_eq!((rot_up, rot_fwd), (inv_up, inv_fwd));
        let inv = sym.invert();
        let mut trans_it = Sym::iter();
        while let Some(trans) = trans_it.next() {
            let to = sym.transform_by(trans);
            let from = to.transform_by_inverse(trans);
            assert_eq!(sym, from);
            let a = trans.transform_by_inverse(sym);
            let b = trans.transform_by(inv);
            assert_eq!(a, b);
            let diff = sym.diff(trans);
            let by_diff = sym.transform_by(diff);
            assert_eq!(trans, by_diff);
            let conj = sym.conjugate(trans);
            let local1 = sym.local_transform_by(trans);
            let local2 = sym.transform_by(conj);
            assert_eq!(local1, local2);
        }
    }
}

#[test]
fn symmetry_associativity_test() {
    let mut it = Sym::cartesian_product::<3>();
    while let Some([sym_x, sym_y, sym_z]) = it.next() {
        let a = sym_x.transform_by(sym_y).transform_by(sym_z);
        let b = sym_x.transform_by(sym_y.transform_by(sym_z));
        assert_eq!(a, b);
    }
}

fn all_syms() -> Vec<Sym> {
    let mut out = Vec::new();
    let mut it = Sym::iter();
    while let Some(sym) = it.next() {
        out.push(sym);
    }
    out
}

#[test]
fn sym_parts() {
    let syms = all_syms();
    assert_eq!(syms.len(), 48);
    for (i, sym) in syms.iter().enumerate() {
        assert_eq!(sym.as_u8() as usize, i);
        assert_eq!(sym.rot().as_u8() as usize, i / 2);
        assert_eq!(sym.is_reflected(), i % 2 == 1);
        assert_eq!(Sym::new(sym.rot(), sym.is_reflected()), *sym);
        assert_eq!(sym.reflect().rot(), sym.rot());
        assert_ne!(sym.reflect().is_reflected(), sym.is_reflected());
        assert_eq!(sym.reflect().reflect(), *sym);
    }
    assert_eq!(Sym::from_u8(48), None);
    assert_eq!(Sym::from_u8(47), Some(Sym::MAX));
    assert_eq!(Sym::from_u8_unchecked(1), Sym::REFLECTED);
    assert_eq!(Rot::NX1.sym(), Sym::NX1N);
    assert_eq!(Rot::NX1.reflect(), Sym::NX1R);
    assert_eq!(Sym::ROTATE_X, Rot::ROTATE_X().base().sym());
    assert_eq!(Sym::ROTATE_Y, Rot::ROTATE_Y().base().sym());
    assert_eq!(Sym::ROTATE_Z, Rot::ROTATE_Z().base().sym());
    assert_eq!(Sym::IDENTITY, Sym::MIN);
}

#[test]
fn sym_reflection_inverts_faces() {
    let mut face_it = Face::iter();
    while let Some(face) = face_it.next() {
        assert_eq!(Sym::REFLECTED.face_dest(face), face.invert());
        assert_eq!(Sym::IDENTITY.face_dest(face), face);
        assert_eq!(Sym::PZ0R.face_dest(face), Rot::PZ0.face_dest(face.invert()));
    }
}

#[test]
fn sym_laws_on_values() {
    for a in all_syms() {
        assert_eq!(a.transform_by(Sym::IDENTITY), a);
        assert_eq!(Sym::IDENTITY.transform_by(a), a);
        assert_eq!(a.transform_by(a.invert()), Sym::IDENTITY);
        assert_eq!(a.invert().invert(), a);
        for b in all_syms() {
            assert_eq!(b.local_transform_by_inverse(a), a.transform_by_inverse(b));
            let mut face_it = Face::iter();
            while let Some(face) = face_it.next() {
                assert_eq!(a.transform_by(b).face_dest(face), b.face_dest(a.face_dest(face)));
            }
        }
    }
}

#[test]
fn sym_face_angles() {
    for sym in all_syms() {
        let mut face_it = Face::iter();
        while let Some(face) = face_it.next() {
            let angle = sym.src_face_angle(face);
            assert!((0..4).contains(&angle));
            assert_eq!(face.up_at_angle(angle), sym.face_dest(sym.face_src(face).up()));
            let angle = sym.dest_face_angle(face);
            assert_eq!(sym.face_dest(face).up_at_angle(angle), sym.face_dest(face.up()));
        }
    }
    assert_eq!(Sym::IDENTITY.src_face_angle(Face::LEFT), 0);
}

#[test]
fn sym_cycle_counts() {
    let mut counts = [0usize; 7];
    for sym in all_syms() {
        let n = sym.count_cycles().count() as usize;
        counts[n] += 1;
        let mut p = Sym::IDENTITY;
        for k in 0..n {
            if k > 0 {
                assert_ne!(p, Sym::IDENTITY);
            }
            p = p.transform_by(sym);
        }
        assert_eq!(p, Sym::IDENTITY);
    }
    assert_eq!(counts, [0, 1, 19, 8, 12, 0, 8]);
    assert_eq!(Sym::REFLECTED.count_cycles(), SymCycleCount::C2);
}

#[test]
fn sym_cycle_count_numbers() {
    assert_eq!(SymCycleCount::from_u8(0), None);
    assert_eq!(SymCycleCount::from_u8(1), Some(SymCycleCount::C1));
    assert_eq!(SymCycleCount::from_u8(4), Some(SymCycleCount::C4));
    assert_eq!(SymCycleCount::from_u8(5), None);
    assert_eq!(SymCycleCount::from_u8(6), Some(SymCycleCount::C6));
    assert_eq!(SymCycleCount::from_u8(7), None);
    assert_eq!(SymCycleCount::from_u8_unchecked(6).count(), 6);
}

#[test]
fn sym_tables_and_iters() {
    let mut table = SymTable::new([0u16; 48]);
    table.set(Sym::NY3R, 300);
    assert_eq!(table.get(Sym::NY3R), 300);
    assert_eq!(table.get(Sym::NY3N), 0);
    let mut it = Sym::cartesian_product::<2>();
    let copy = it.clone();
    let mut n = 0;
    while it.next().is_some() {
        n += 1;
    }
    assert_eq!(n, 48 * 48);
    let mut copy = copy;
    assert_eq!(copy.current(), Some([Sym::IDENTITY, Sym::IDENTITY]));
    assert!(Sym::PX1N.eq(Sym::PX1N));
    assert!(Sym::PX1N.ne(Sym::PX1R));
}

#[test]
fn sym_cartesian_product_enumeration() {
    let mut it = Sym::cartesian_product::<2>();
    let mut i: usize = 0;
    while let Some([a, b]) = it.next() {
        assert_eq!(a.as_u8() as usize, i / 48);
        assert_eq!(b.as_u8() as usize, i % 48);
        i += 1;
    }
    assert_eq!(i, 48 * 48);
    assert_eq!(it.next(), None);
    assert_eq!(it.current(), None);
}
