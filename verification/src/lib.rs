//! Linear algebra over a scalar of the caller's choice, and the signed
//! distance from a point to a curve.
//!
//! The scalar is a type parameter: anything that is a [`Number`] can be the
//! component of a vector or a matrix, and anything that is a
//! [`FloatingPoint`] can be solved for and measured with. The machine
//! integers are numbers out of the box; a floating-point type becomes one
//! by implementing the traits.
//!
//! The heart of the library is the curve-distance kernel: the solvers of
//! quadratic and cubic equations in [`equations`], with their ladder of
//! degenerate cases, and the segments of [`linear::segments`], which tell
//! how far a point lies from a line or a quadratic Bézier curve, and on
//! which side. Every function states what it computes in terms of the
//! scalar's own operations. What the formulas are worth when nothing is
//! rounded is proved apart, for a scalar that computes exactly: the roots
//! solve their equations, the distance to a line segment is the distance to
//! its nearest point, and the mirror image of a point lies as far off on
//! the other side.
pub mod complex;
pub mod data;
pub mod debug;
pub mod equations;
pub mod linear;

pub use linear::barycentric_coordinates;
pub use linear::computes_cosines;
pub use linear::computes_exactly;
pub use linear::half;
pub use linear::half_spec;
pub use linear::line_pseudo_sdf;
pub use linear::line_sdf;
pub use linear::non_zero_sign;
pub use linear::quadratic_bezier_curve_sdf;
pub use linear::slope;
pub use linear::smoothing;
pub use linear::translate;
pub use linear::BoundingBox2D;
pub use linear::BoundingBox3D;
pub use linear::Cube;
pub use linear::CubicSegment;
pub use linear::Dimension;
pub use linear::EuclideanGeometry;
pub use linear::ExactNumber;
pub use linear::FlatDimension;
pub use linear::FlatSegment;
pub use linear::FloatingPoint;
pub use linear::IMat2;
pub use linear::IMat2x3;
pub use linear::IMat2x4;
pub use linear::IMat3;
pub use linear::IMat3x2;
pub use linear::IMat3x4;
pub use linear::IMat4;
pub use linear::IMat4x2;
pub use linear::IVec2;
pub use linear::IVec3;
pub use linear::IVec4;
pub use linear::LinearSegment;
pub use linear::LMat2;
pub use linear::LMat2x3;
pub use linear::LMat2x4;
pub use linear::LMat3;
pub use linear::LMat3x2;
pub use linear::LMat3x4;
pub use linear::LMat4;
pub use linear::LMat4x2;
pub use linear::LVec2;
pub use linear::LVec3;
pub use linear::LVec4;
pub use linear::Matrix2;
pub use linear::Matrix2x3;
pub use linear::Matrix2x4;
pub use linear::Matrix3;
pub use linear::Matrix3x2;
pub use linear::Matrix3x4;
pub use linear::Matrix4;
pub use linear::Matrix4x2;
pub use linear::MatrixRepresentation;
pub use linear::NonEuclideanGeometry;
pub use linear::Number;
pub use linear::QuadraticSegment;
pub use linear::Rectangle;
pub use linear::Rotation;
pub use linear::Segment;
pub use linear::SignedNumber;
pub use linear::Simplex;
pub use linear::SolidDimension;
pub use linear::SquareMatrix;
pub use linear::Transform;
pub use linear::Transform2D;
pub use linear::Transform3D;
pub use linear::TransformQuaternion3D;
pub use linear::Triangle;
pub use linear::UIMat2;
pub use linear::UIMat2x3;
pub use linear::UIMat2x4;
pub use linear::UIMat3;
pub use linear::UIMat3x2;
pub use linear::UIMat3x4;
pub use linear::UIMat4;
pub use linear::UIMat4x2;
pub use linear::UIVec2;
pub use linear::UIVec3;
pub use linear::UIVec4;
pub use linear::ULMat2;
pub use linear::ULMat2x3;
pub use linear::ULMat2x4;
pub use linear::ULMat3;
pub use linear::ULMat3x2;
pub use linear::ULMat3x4;
pub use linear::ULMat4;
pub use linear::ULMat4x2;
pub use linear::ULVec2;
pub use linear::ULVec3;
pub use linear::ULVec4;
pub use linear::UnsignedNumber;
pub use linear::USizeMat2;
pub use linear::USizeMat2x3;
pub use linear::USizeMat2x4;
pub use linear::USizeMat3;
pub use linear::USizeMat3x2;
pub use linear::USizeMat3x4;
pub use linear::USizeMat4;
pub use linear::USizeMat4x2;
pub use linear::USizeVec2;
pub use linear::USizeVec3;
pub use linear::USizeVec4;
pub use linear::Vector;
pub use linear::Vector2;
pub use linear::Vector3;
pub use linear::Vector4;
