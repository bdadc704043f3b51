pub mod axis;
pub mod counting;
pub mod face;
pub mod ffi;
pub mod rotation;
pub mod symmetry;
pub mod uv_mapping;

pub use axis::{Axis, AxisTable};
pub use face::{
    AngleDirection,
    Face,
    FaceBitsTable,
    FaceIter,
    FaceTable,
    LexFaceIter,
    axial_face_bits_table,
    axial_face_table,
    cardinal_face_table,
};
pub use face::Face::{NegX, NegY, NegZ, PosX, PosY, PosZ};
pub use rotation::{
    CartesianRotIter,
    ConjugacyClass,
    QuarterTurns,
    Rot,
    RotAngles,
    RotCycleCount,
    RotIter,
    RotTable,
    RotTableBits,
    determine_conjugacy_class,
};
pub use symmetry::{
    AchiralConjugacyClass,
    CartesianSymIter,
    Sym,
    SymCycleCount,
    SymIter,
    SymTable,
};
pub use uv_mapping::UvMap;
