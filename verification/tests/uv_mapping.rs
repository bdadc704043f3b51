use cubesym::UvMap;
use cubesym::ffi::{FFIVec3, UpAngle};
use cubesym::Face;

#[test]
fn uv_map_bits() {
    let maps = [
        UvMap::PXPY,
        UvMap::NXPY,
        UvMap::PXNY,
        UvMap::NXNY,
        UvMap::PYPX,
        UvMap::PYNX,
        UvMap::NYPX,
        UvMap::NYNX,
    ];
    for (i, map) in maps.iter().enumerate() {
        assert_eq!(map.as_u8() as usize, i);
        assert_eq!(map.negate_x(), i & 1 != 0);
        assert_eq!(map.negate_y(), i & 2 != 0);
        assert_eq!(map.swap(), i & 4 != 0);
    }
}

#[test]
fn uv_map_coords() {
    assert_eq!(UvMap::PXPY.const_map_i8([3, 4]), [3, 4]);
    assert_eq!(UvMap::NXPY.const_map_i16([3, 4]), [-3, 4]);
    assert_eq!(UvMap::PXNY.const_map_i32([3, 4]), [3, -4]);
    assert_eq!(UvMap::NXNY.const_map_i64([3, 4]), [-3, -4]);
    assert_eq!(UvMap::PYPX.const_map_i128([3, 4]), [4, 3]);
    assert_eq!(UvMap::PYNX.const_map_i8([3, 4]), [4, -3]);
    assert_eq!(UvMap::NYPX.const_map_i8([3, 4]), [-4, 3]);
    assert_eq!(UvMap::NYNX.const_map_i8([3, 4]), [-4, -3]);
    assert_eq!(UvMap::PYPX.const_map_i8([i8::MIN, 0]), [0, i8::MIN]);
    assert_eq!(UvMap::NYNX.const_map_f32([3, 4]), [-4, -3]);
    assert_eq!(UvMap::PYNX.const_map_f64([3, 4]), [4, -3]);
    assert_eq!(UvMap::NXPY.const_map_i128([i8::MAX, i8::MIN]), [-i8::MAX, i8::MIN]);
}

#[test]
fn ffi_values() {
    let v = FFIVec3::new(1, 2, 3);
    assert_eq!((v.x, v.y, v.z), (1, 2, 3));
    let w = FFIVec3::from_array(Face::NegZ.to_coord_i32());
    assert_eq!((w.x, w.y, w.z), (0, 0, -1));
    let ua = UpAngle { up: Face::UP, angle: 2 };
    assert_eq!(ua.up, Face::UP);
    assert_eq!(ua.angle, 2);
}
