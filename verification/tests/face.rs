use cubesym::{
    AngleDirection, Axis, AxisTable, Face, FaceTable, NegX, NegY, NegZ, PosX, PosY, PosZ,
    axial_face_bits_table, axial_face_table, cardinal_face_table,
};

fn all_faces() -> Vec<Face> {
    let mut out = Vec::new();
    let mut it = Face::iter();
    while let Some(face) = it.next() {
        out.push(face);
    }
    out
}

#[test]
fn face_iter_order() {
    let faces = all_faces();
    assert_eq!(faces, vec![PosY, NegZ, NegX, PosZ, PosX, NegY]);
    for (i, face) in faces.iter().enumerate() {
        assert_eq!(face.as_u8() as usize, i);
        assert_eq!(Face::from_u8(i as u8), Some(*face));
    }
    assert_eq!(Face::from_u8(6), None);
    assert_eq!(Face::from_u8_unchecked(4), PosX);
    let mut it = cubesym::FaceIter::new();
    assert_eq!(it.current(), Some(Face::UP));
    for _ in 0..6 {
        assert!(it.next().is_some());
    }
    assert_eq!(it.current(), None);
    assert_eq!(it.next(), None);
}

#[test]
fn lexicographic_order() {
    let mut it = Face::lexicographic_iter();
    let mut out = Vec::new();
    assert_eq!(it.current(), Some(NegX));
    while let Some(face) = it.next() {
        out.push(face);
    }
    assert_eq!(out, vec![NegX, NegY, NegZ, PosX, PosY, PosZ]);
    assert_eq!(it.current(), None);
}

#[test]
fn cardinal_directions() {
    assert_eq!(Face::UP, PosY);
    assert_eq!(Face::DOWN, NegY);
    assert_eq!(Face::RIGHT, PosX);
    assert_eq!(Face::LEFT, NegX);
    assert_eq!(Face::FORWARD, NegZ);
    assert_eq!(Face::BACKWARD, PosZ);
    assert_eq!(Face::default(), Face::UP);
    assert_eq!(Face::ANGLE_DIRECTION, AngleDirection::CCW);
    assert_eq!(AngleDirection::default(), AngleDirection::CCW);
}

#[test]
fn face_accessors() {
    assert_eq!(NegX.axis(), Axis::X);
    assert_eq!(PosZ.axis(), Axis::Z);
    assert!(NegY.is_negative());
    assert!(!NegY.is_positive());
    assert!(PosY.is_positive());
    assert_eq!(PosZ.as_negative(), NegZ);
    assert_eq!(NegZ.as_negative(), NegZ);
    assert_eq!(NegX.as_positive(), PosX);
    assert_eq!(NegX.with_sign(0), NegX);
    assert_eq!(NegX.with_sign(5), PosX);
    assert_eq!(PosX.with_sign(-3), NegX);
    assert_eq!(PosY.to_coord_i8(), [0, 1, 0]);
    assert_eq!(NegZ.to_coord_i16(), [0, 0, -1]);
    assert_eq!(NegX.to_coord_i32(), [-1, 0, 0]);
    assert_eq!(PosZ.to_coord_i64(), [0, 0, 1]);
    assert!(PosX.is_orthogonal_to(NegY));
    assert!(!PosX.is_orthogonal_to(NegX));
    assert!(PosX.eq(PosX));
    assert!(PosX.ne(NegX));
}

#[test]
fn face_directions() {
    assert_eq!(Face::UP.up(), Face::FORWARD);
    assert_eq!(Face::DOWN.up(), Face::BACKWARD);
    assert_eq!(Face::LEFT.up(), Face::UP);
    assert_eq!(Face::UP.left(), Face::LEFT);
    assert_eq!(Face::LEFT.left(), Face::FORWARD);
    assert_eq!(Face::RIGHT.left(), Face::BACKWARD);
    assert_eq!(Face::FORWARD.left(), Face::RIGHT);
    assert_eq!(Face::BACKWARD.left(), Face::LEFT);
    for face in all_faces() {
        assert_eq!(face.down(), face.up().invert());
        assert_eq!(face.right(), face.left().invert());
        assert_eq!(face.up_at_angle(0), face.up());
        assert_eq!(face.up_at_angle(1), face.left());
        assert_eq!(face.up_at_angle(2), face.down());
        assert_eq!(face.up_at_angle(3), face.right());
        assert_eq!(face.up_at_angle(-1), face.right());
        assert_eq!(face.left_at_angle(1), face.down());
        assert_eq!(face.down_at_angle(1), face.right());
        assert_eq!(face.right_at_angle(1), face.up());
        assert_eq!(face.right_at_angle(6), face.left());
        assert!(face.is_orthogonal_to(face.up()));
        assert!(face.is_orthogonal_to(face.left()));
    }
}

#[test]
fn face_inversions() {
    for face in all_faces() {
        assert_eq!(face.invert().invert(), face);
        assert_ne!(face.invert(), face);
        assert_eq!(face.invert().axis(), face.axis());
        assert_eq!(face.invert_if(false), face);
        assert_eq!(face.invert_if(true), face.invert());
        assert_eq!(face.invert_vertical_if(false), face);
        assert_eq!(face.invert_vertical_if(true), face.invert_vertical());
        assert_eq!(face.invert_left_right_if(true), face.invert_left_right());
        assert_eq!(face.invert_front_back_if(true), face.invert_front_back());
        assert_eq!(face.invert_left_right_if(false), face);
        assert_eq!(face.invert_front_back_if(false), face);
    }
    assert_eq!(PosX.invert_x(), NegX);
    assert_eq!(PosY.invert_x(), PosY);
    assert_eq!(NegY.invert_y(), PosY);
    assert_eq!(NegZ.invert_z(), PosZ);
    assert_eq!(NegZ.invert_xy(), NegZ);
    assert_eq!(NegY.invert_xy(), PosY);
    assert_eq!(PosZ.invert_xz(), NegZ);
    assert_eq!(PosY.invert_xz(), PosY);
    assert_eq!(PosX.invert_yz(), PosX);
    assert_eq!(PosY.invert_yz(), NegY);
    assert_eq!(Face::UP.invert_vertical(), Face::DOWN);
    assert_eq!(Face::LEFT.invert_vertical(), Face::LEFT);
    assert_eq!(Face::LEFT.invert_left_right(), Face::RIGHT);
    assert_eq!(Face::UP.invert_left_right(), Face::UP);
    assert_eq!(Face::BACKWARD.invert_front_back(), Face::FORWARD);
    assert_eq!(Face::RIGHT.invert_front_back(), Face::RIGHT);
}

#[test]
fn face_tables() {
    let table = axial_face_table(1, 2, 3, 4, 5, 6);
    assert_eq!(table.get(NegX), 1);
    assert_eq!(table.get(PosZ), 6);
    assert_eq!(table.0, [5, 3, 1, 6, 4, 2]);
    let table = cardinal_face_table(1, 2, 3, 4, 5, 6);
    assert_eq!(table.get(Face::UP), 1);
    assert_eq!(table.get(Face::DOWN), 6);
    let mut table = FaceTable::new([0u8; 6]);
    table.set(NegY, 9);
    assert_eq!(table.get(NegY), 9);
    assert_eq!(table.get(PosY), 0);
    table[PosZ] = 4;
    assert_eq!(table[PosZ], 4);
    assert_eq!(table[NegY], 9);
    let faces = FaceTable::new([PosY, NegZ, NegX, PosZ, PosX, NegY]).invert();
    assert_eq!(faces.0, [NegY, PosZ, PosX, NegZ, NegX, PosY]);
}

#[test]
fn face_bits_table() {
    let mut bits = axial_face_bits_table(true, false, true, false, true, false);
    assert!(bits.get(NegX));
    assert!(!bits.get(NegY));
    assert!(bits.get(NegZ));
    assert!(!bits.get(PosX));
    assert!(bits.get(PosY));
    assert!(!bits.get(PosZ));
    bits.set(NegX, false);
    bits.set(PosZ, true);
    assert!(!bits.get(NegX));
    assert!(bits.get(PosZ));
    assert!(bits.get(NegZ));
}

#[test]
fn axis_table() {
    let table = AxisTable::new([10, 20, 30]);
    assert_eq!(table.get(Axis::X), 10);
    assert_eq!(table.get(Axis::Y), 20);
    assert_eq!(table.get(Axis::Z), 30);
    assert!(Axis::X.eq(Axis::X));
    assert!(Axis::X.ne(Axis::Y));
    assert!(Axis::X.is_orthogonal_to(Axis::Z));
    assert!(!Axis::Y.is_orthogonal_to(Axis::Y));
}
