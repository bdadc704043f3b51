# cubesym

Faces, rotations and symmetries of a cube (for voxel work), with their
behaviour stated in contracts and proved with Verus.

- `src/axis.rs`: the three axes and a table indexed by axis.
- `src/face.rs`: the six faces, their axes and signs, the four directions
  (Up, Left, Down, Right) on each face at each angle, inversions, tables
  indexed by face, and the face iterators.
- `src/rotation.rs`: the 24 rotations, named by where they carry the Up face
  and the number of quarter turns about it; composition, inverses, powers,
  quarter turns about the axes, and the group laws.
- `src/symmetry.rs`: the 48 symmetries (a rotation, optionally preceded by
  the inversion), with the same operations and laws.
- `src/counting.rs`: numbers written as digits in a base, which describe the
  order of the cartesian-product iterators.
- `src/uv_mapping.rs`: the eight mappings of 2D coordinates.
- `src/ffi.rs`: plain data types for the C interface.
- `app/lib.rs`: the C interface (`extern "C"` functions and statics) and the
  floating point face normals.

The coordinate system has `+Y` up, `+X` right and `-Z` forward; angles
increase counter-clockwise.
