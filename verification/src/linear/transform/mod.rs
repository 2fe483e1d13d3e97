use vstd::prelude::*;
use crate::complex::quaternion::Quaternion;
use crate::linear::dimension::Dimension;
use crate::linear::dimension::FlatDimension;
use crate::linear::dimension::SolidDimension;
use crate::linear::matrix::Matrix2;
use crate::linear::matrix::Matrix3;
use crate::linear::matrix::Matrix4;
use crate::linear::matrix::SquareMatrix;
use crate::linear::rotation::Rotation;
use crate::linear::traits::FloatingPoint;
use crate::linear::traits::Number;
use crate::linear::traits::SignedNumber;
use crate::linear::translate;
use crate::linear::translate_spec;
use crate::linear::vector::Vector2;
use crate::linear::vector::Vector3;
use crate::linear::vector::Vector4;

pub mod rotater;

verus! {

/// A placement in a space: a translation, a rotation and a scaling, each
/// of which can be added to or replaced.
pub trait Transform: Sized {
    type Dimension: Dimension;

    /// The transform with the rotation `rot` applied after its own.
    spec fn rotated(self, rot: <Self::Dimension as Dimension>::RotationRepresentation) -> Self;

    /// The transform moved on by `pos`.
    spec fn translated(self, pos: <Self::Dimension as Dimension>::VectorRepresentation) -> Self;

    /// The transform with its scale grown by `scale`.
    spec fn scaled(self, scale: <Self::Dimension as Dimension>::VectorRepresentation) -> Self;

    /// The transform with `rot` in the place of its rotation.
    spec fn with_rotation(
        self,
        rot: <Self::Dimension as Dimension>::RotationRepresentation,
    ) -> Self;

    /// The transform with `pos` in the place of its translation.
    spec fn with_translation(
        self,
        pos: <Self::Dimension as Dimension>::VectorRepresentation,
    ) -> Self;

    /// The transform with `scale` in the place of its scale.
    spec fn with_scaling(
        self,
        scale: <Self::Dimension as Dimension>::VectorRepresentation,
    ) -> Self;

    fn rotate(&mut self, rot: &<Self::Dimension as Dimension>::RotationRepresentation)
        ensures
            *final(self) == old(self).rotated(*rot),
    ;

    fn translate(&mut self, pos: &<Self::Dimension as Dimension>::VectorRepresentation)
        ensures
            *final(self) == old(self).translated(*pos),
    ;

    fn scale(&mut self, scale: &<Self::Dimension as Dimension>::VectorRepresentation)
        ensures
            *final(self) == old(self).scaled(*scale),
    ;

    fn set_rotation(&mut self, rot: &<Self::Dimension as Dimension>::RotationRepresentation)
        ensures
            *final(self) == old(self).with_rotation(*rot),
    ;

    fn set_translation(&mut self, pos: &<Self::Dimension as Dimension>::VectorRepresentation)
        ensures
            *final(self) == old(self).with_translation(*pos),
    ;

    fn set_scaling(&mut self, scale: &<Self::Dimension as Dimension>::VectorRepresentation)
        ensures
            *final(self) == old(self).with_scaling(*scale),
    ;
}

/// What can be written down as a matrix, and tell its parts. Each method
/// writes what it knows into the place handed to it; what a type does not
/// have is written as the identity matrix, or not at all.
pub trait MatrixRepresentation<T: Number> {
    fn apply_matrix4(&self, mat: &mut Matrix4<T>)
        default_ensures
            *final(mat) == Matrix4::<T>::identity_spec(),
    {
        *mat = Matrix4::<T>::identity();
    }

    fn apply_matrix3(&self, mat: &mut Matrix3<T>)
        default_ensures
            *final(mat) == Matrix3::<T>::identity_spec(),
    {
        *mat = Matrix3::<T>::identity();
    }

    fn apply_matrix2(&self, mat: &mut Matrix2<T>)
        default_ensures
            *final(mat) == Matrix2::<T>::identity_spec(),
    {
        *mat = Matrix2::<T>::identity();
    }

    fn normal_matrix(&self, mat: &mut Matrix3<T>)
        default_ensures
            *final(mat) == Matrix3::<T>::identity_spec(),
    {
        *mat = Matrix3::<T>::identity();
    }

    fn apply_translation4d(&self, vec: &mut Vector4<T>)
        default_ensures
            *final(vec) == *old(vec),
    {
    }

    fn apply_translation3d(&self, vec: &mut Vector3<T>)
        default_ensures
            *final(vec) == *old(vec),
    {
    }

    fn apply_translation2d(&self, vec: &mut Vector2<T>)
        default_ensures
            *final(vec) == *old(vec),
    {
    }

    fn apply_rotation4d(&self, vec: &mut Quaternion<T>)
        default_ensures
            *final(vec) == *old(vec),
    {
    }

    fn apply_rotation3d(&self, vec: &mut Vector3<T>)
        default_ensures
            *final(vec) == *old(vec),
    {
    }

    fn apply_rotation2d(&self, vec: &mut T)
        default_ensures
            *final(vec) == *old(vec),
    {
    }

    fn apply_scaling4d(&self, vec: &mut Vector4<T>)
        default_ensures
            *final(vec) == *old(vec),
    {
    }

    fn apply_scaling3d(&self, vec: &mut Vector3<T>)
        default_ensures
            *final(vec) == *old(vec),
    {
    }

    fn apply_scaling2d(&self, vec: &mut Vector2<T>)
        default_ensures
            *final(vec) == *old(vec),
    {
    }
}

/// A placement in the plane.
#[derive(Clone, Copy)]
pub struct Transform2D<T> {
    pub translation: Vector2<T>,
    pub scale: Vector2<T>,
    /// The angle of the rotation, in radians.
    pub rotation: T,
}

impl<T: FloatingPoint> Transform2D<T> {
    #[inline]
    pub fn new(translation: Vector2<T>, scale: Vector2<T>, rotation: T) -> (t: Self)
        ensures
            t == (Transform2D { translation, scale, rotation }),
    {
        Self { translation, scale, rotation }
    }

    /// The matrix of the rotation: `(cos, sin)` over `(-sin, cos)`.
    pub open spec fn rotation_matrix(self) -> Matrix2<T> {
        Matrix2 {
            x: Vector2 { x: self.rotation.cos_spec(), y: self.rotation.sin_spec() },
            y: Vector2 { x: self.rotation.sin_spec().neg_spec(), y: self.rotation.cos_spec() },
        }
    }

    /// The matrix of the scaling: the scale on the diagonal.
    pub open spec fn scale_matrix(self) -> Matrix2<T> {
        Matrix2 {
            x: Vector2 { x: self.scale.x, y: T::zero_spec() },
            y: Vector2 { x: T::zero_spec(), y: self.scale.y },
        }
    }

    /// The rotation matrix times the scale matrix.
    pub open spec fn mat2_spec(self) -> Matrix2<T> {
        self.rotation_matrix().mul_spec(self.scale_matrix())
    }

    pub fn mat2(&self) -> (m: Matrix2<T>)
        ensures
            m == self.mat2_spec(),
    {
        proof {
            T::arithmetic_is_total();
        }
        let sin_rot = self.rotation.sin();
        let cos_rot = self.rotation.cos();
        let mat_rot = Matrix2::from_vec(
            Vector2::new(cos_rot, sin_rot),
            Vector2::new(sin_rot.neg(), cos_rot),
        );
        let mat_scale = Matrix2::from_vec(
            Vector2::new(self.scale.x, T::zero()),
            Vector2::new(T::zero(), self.scale.y),
        );
        mat_rot.mul(mat_scale)
    }

    /// The rotation and the scaling as matrices of three rows whose last
    /// row is zero, multiplied, and the translation set into the last row
    /// of the product.
    pub open spec fn mat3_spec(self) -> Matrix3<T> {
        let o = T::zero_spec();
        let rotation = Matrix3 {
            x: Vector3 { x: self.rotation.cos_spec(), y: self.rotation.sin_spec(), z: o },
            y: Vector3 {
                x: self.rotation.sin_spec().neg_spec(),
                y: self.rotation.cos_spec(),
                z: o,
            },
            z: Vector3::splat_spec(o),
        };
        let scale = Matrix3 {
            x: Vector3 { x: self.scale.x, y: o, z: o },
            y: Vector3 { x: o, y: self.scale.y, z: o },
            z: Vector3::splat_spec(o),
        };
        let product = rotation.mul_spec(scale);
        Matrix3 {
            x: product.x,
            y: product.y,
            z: Vector3 { x: self.translation.x, y: self.translation.y, z: product.z.z },
        }
    }

    pub fn mat3(&self) -> (m: Matrix3<T>)
        ensures
            m == self.mat3_spec(),
    {
        proof {
            T::arithmetic_is_total();
        }
        let sin_rot = self.rotation.sin();
        let cos_rot = self.rotation.cos();
        let mat_rot = Matrix3::from_vec(
            Vector3::new(cos_rot, sin_rot, T::zero()),
            Vector3::new(sin_rot.neg(), cos_rot, T::zero()),
            Vector3::from(T::zero()),
        );
        let mat_scale = Matrix3::from_vec(
            Vector3::new(self.scale.x, T::zero(), T::zero()),
            Vector3::new(T::zero(), self.scale.y, T::zero()),
            Vector3::from(T::zero()),
        );
        let mut mat = mat_rot.mul(mat_scale);
        mat.z.x = self.translation.x;
        mat.z.y = self.translation.y;
        mat
    }

    /// The transform with the scale replaced by its inverse, one over each
    /// component.
    pub open spec fn inverse_scaled(self) -> Self {
        Transform2D { scale: Vector2::splat_spec(T::one_spec()).div_spec(self.scale), ..self }
    }
}

impl<T: FloatingPoint> MatrixRepresentation<T> for Transform2D<T> {
    fn apply_matrix2(&self, mat: &mut Matrix2<T>)
        ensures
            *final(mat) == self.mat2_spec(),
    {
        *mat = self.mat2();
    }

    fn apply_matrix3(&self, mat: &mut Matrix3<T>)
        ensures
            *final(mat) == self.mat3_spec(),
    {
        *mat = self.mat3();
    }

    /// The matrix by which normals are transformed: that of the transform
    /// with the inverse scale.
    fn normal_matrix(&self, mat: &mut Matrix3<T>)
        ensures
            *final(mat) == self.inverse_scaled().mat3_spec(),
    {
        proof {
            T::arithmetic_is_total();
        }
        let mut x = *self;
        x.set_scaling(&Vector2::from(T::one()).div(self.scale));
        *mat = x.mat3();
    }

    fn apply_rotation2d(&self, vec: &mut T)
        ensures
            *final(vec) == self.rotation,
    {
        *vec = self.rotation
    }

    fn apply_translation2d(&self, vec: &mut Vector2<T>)
        ensures
            *final(vec) == self.translation,
    {
        *vec = self.translation
    }

    fn apply_scaling2d(&self, vec: &mut Vector2<T>)
        ensures
            *final(vec) == self.scale,
    {
        *vec = self.scale
    }
}

impl<T: FloatingPoint> Transform for Transform2D<T> {
    type Dimension = FlatDimension<T>;

    /// The angles add up.
    open spec fn rotated(self, rot: T) -> Self {
        Transform2D { rotation: self.rotation.add_spec(rot), ..self }
    }

    open spec fn translated(self, pos: Vector2<T>) -> Self {
        Transform2D { translation: self.translation.add_spec(pos), ..self }
    }

    /// The scales add up.
    open spec fn scaled(self, scale: Vector2<T>) -> Self {
        Transform2D { scale: self.scale.add_spec(scale), ..self }
    }

    open spec fn with_rotation(self, rot: T) -> Self {
        Transform2D { rotation: rot, ..self }
    }

    open spec fn with_translation(self, pos: Vector2<T>) -> Self {
        Transform2D { translation: pos, ..self }
    }

    open spec fn with_scaling(self, scale: Vector2<T>) -> Self {
        Transform2D { scale, ..self }
    }

    fn rotate(&mut self, rot: &T) {
        proof {
            T::arithmetic_is_total();
        }
        self.rotation = self.rotation.add(*rot);
    }

    fn translate(&mut self, pos: &Vector2<T>) {
        proof {
            T::arithmetic_is_total();
        }
        self.translation = self.translation.add(*pos);
    }

    fn scale(&mut self, scale: &Vector2<T>) {
        proof {
            T::arithmetic_is_total();
        }
        self.scale = self.scale.add(*scale);
    }

    fn set_rotation(&mut self, rot: &T) {
        self.rotation = *rot;
    }

    fn set_translation(&mut self, pos: &Vector2<T>) {
        self.translation = *pos;
    }

    fn set_scaling(&mut self, scale: &Vector2<T>) {
        self.scale = *scale;
    }
}

impl<T: FloatingPoint> Default for Transform2D<T> {
    /// No translation, no rotation, and the scale one.
    fn default() -> (t: Self)
        ensures
            t == (Transform2D {
                translation: Vector2::splat_spec(T::zero_spec()),
                scale: Vector2::splat_spec(T::one_spec()),
                rotation: T::zero_spec(),
            }),
    {
        Self {
            translation: Vector2::new(T::zero(), T::zero()),
            scale: Vector2::new(T::one(), T::one()),
            rotation: T::zero(),
        }
    }
}

/// The matrix of four rows of a placement in space, from its parts: the
/// identity moved by `translation`, times `rotation`, times the matrix of
/// `scale`.
pub open spec fn placement4<T: FloatingPoint>(
    translation: Vector3<T>,
    rotation: Matrix4<T>,
    scale: Vector3<T>,
) -> Matrix4<T> {
    translate_spec(Matrix4::<T>::identity_spec(), translation).mul_spec(rotation).mul_spec(
        Matrix4::from_scale_spec(scale),
    )
}

/// The matrix of three rows of a placement in space, which has no
/// translation: the identity times `rotation`, times the matrix of `scale`.
pub open spec fn placement3<T: FloatingPoint>(
    rotation: Matrix3<T>,
    scale: Vector3<T>,
) -> Matrix3<T> {
    Matrix3::<T>::identity_spec().mul_spec(rotation).mul_spec(Matrix3::from_scale_spec(scale))
}

/// A placement in space whose rotation is a quaternion.
#[derive(Clone, Copy)]
pub struct TransformQuaternion3D<T> {
    pub translation: Vector3<T>,
    pub scale: Vector3<T>,
    pub rotation: Quaternion<T>,
}

impl<T: FloatingPoint> TransformQuaternion3D<T> {
    #[inline]
    pub fn new(translation: Vector3<T>, scale: Vector3<T>, rotation: Quaternion<T>) -> (t: Self)
        ensures
            t == (TransformQuaternion3D { translation, scale, rotation }),
    {
        Self { translation, scale, rotation }
    }

    /// The `placement4` of the parts, with the rotation matrix of the
    /// quaternion.
    pub open spec fn mat4_spec(self) -> Matrix4<T> {
        placement4(self.translation, self.rotation.matrix4_spec(), self.scale)
    }

    pub fn mat4(&self) -> (m: Matrix4<T>)
        ensures
            m == self.mat4_spec(),
    {
        proof {
            T::arithmetic_is_total();
        }
        let mut transform = Matrix4::<T>::identity();
        transform = translate(&transform, self.translation);
        let rotation = Matrix4::from_quaternion(self.rotation);
        transform = transform.mul(rotation);
        let scale = Matrix4::from_scale(self.scale);
        transform.mul(scale)
    }

    /// The `placement3` of the parts, with the rotation matrix of the
    /// quaternion.
    pub open spec fn mat3_spec(self) -> Matrix3<T> {
        placement3(self.rotation.matrix3_spec(), self.scale)
    }

    pub fn mat3(&self) -> (m: Matrix3<T>)
        ensures
            m == self.mat3_spec(),
    {
        proof {
            T::arithmetic_is_total();
        }
        let mut transform = Matrix3::<T>::identity();
        let rotation = Matrix3::from_quaternion(self.rotation);
        transform = transform.mul(rotation);
        let scale = Matrix3::from_scale(self.scale);
        transform.mul(scale)
    }

    /// The transform with the scale replaced by its inverse, one over each
    /// component.
    pub open spec fn inverse_scaled(self) -> Self {
        TransformQuaternion3D {
            scale: Vector3::splat_spec(T::one_spec()).div_spec(self.scale),
            ..self
        }
    }
}

impl<T: FloatingPoint> MatrixRepresentation<T> for TransformQuaternion3D<T> {
    /// Multiplies the transformation that `mat` holds by the matrix of
    /// this placement.
    fn apply_matrix4(&self, mat: &mut Matrix4<T>)
        ensures
            *final(mat) == old(mat).mul_spec(self.mat4_spec()),
    {
        proof {
            T::arithmetic_is_total();
        }
        *mat = mat.mul(self.mat4());
    }

    fn apply_matrix3(&self, mat: &mut Matrix3<T>)
        ensures
            *final(mat) == self.mat3_spec(),
    {
        *mat = self.mat3();
    }

    /// The matrix by which normals are transformed: that of the transform
    /// with the inverse scale.
    fn normal_matrix(&self, mat: &mut Matrix3<T>)
        ensures
            *final(mat) == self.inverse_scaled().mat3_spec(),
    {
        proof {
            T::arithmetic_is_total();
        }
        let mut x = *self;
        x.set_scaling(&Vector3::from(T::one()).div(self.scale));
        *mat = x.mat3();
    }

    fn apply_rotation4d(&self, vec: &mut Quaternion<T>)
        ensures
            *final(vec) == self.rotation,
    {
        *vec = self.rotation
    }

    /// The rotation as Euler angles.
    fn apply_rotation3d(&self, vec: &mut Vector3<T>)
        ensures
            *final(vec) == self.rotation.to_euler_spec(),
    {
        *vec = self.rotation.to_euler()
    }

    fn apply_translation3d(&self, vec: &mut Vector3<T>)
        ensures
            *final(vec) == self.translation,
    {
        *vec = self.translation
    }

    fn apply_scaling3d(&self, vec: &mut Vector3<T>)
        ensures
            *final(vec) == self.scale,
    {
        *vec = self.scale
    }

    fn apply_translation2d(&self, vec: &mut Vector2<T>)
        ensures
            *final(vec) == self.translation.xy_spec(),
    {
        *vec = self.translation.xy()
    }

    fn apply_scaling2d(&self, vec: &mut Vector2<T>)
        ensures
            *final(vec) == self.scale.xy_spec(),
    {
        *vec = self.scale.xy()
    }
}

impl<T: FloatingPoint> Transform for TransformQuaternion3D<T> {
    type Dimension = SolidDimension<T>;

    /// The rotation times the quaternion of the Euler angles `rot`.
    open spec fn rotated(self, rot: Vector3<T>) -> Self {
        TransformQuaternion3D {
            rotation: self.rotation.mul_spec(Quaternion::from_euler_spec(rot)),
            ..self
        }
    }

    open spec fn translated(self, pos: Vector3<T>) -> Self {
        TransformQuaternion3D { translation: self.translation.add_spec(pos), ..self }
    }

    /// The scales add up.
    open spec fn scaled(self, scale: Vector3<T>) -> Self {
        TransformQuaternion3D { scale: self.scale.add_spec(scale), ..self }
    }

    /// The quaternion of the Euler angles `rot` in the place of the
    /// rotation.
    open spec fn with_rotation(self, rot: Vector3<T>) -> Self {
        TransformQuaternion3D { rotation: Quaternion::from_euler_spec(rot), ..self }
    }

    open spec fn with_translation(self, pos: Vector3<T>) -> Self {
        TransformQuaternion3D { translation: pos, ..self }
    }

    open spec fn with_scaling(self, scale: Vector3<T>) -> Self {
        TransformQuaternion3D { scale, ..self }
    }

    fn rotate(&mut self, rot: &Vector3<T>) {
        proof {
            T::arithmetic_is_total();
        }
        self.rotation = self.rotation.mul(Quaternion::from_euler(*rot));
    }

    fn translate(&mut self, pos: &Vector3<T>) {
        proof {
            T::arithmetic_is_total();
        }
        self.translation = self.translation.add(*pos);
    }

    fn scale(&mut self, scale: &Vector3<T>) {
        proof {
            T::arithmetic_is_total();
        }
        self.scale = self.scale.add(*scale);
    }

    fn set_rotation(&mut self, rot: &Vector3<T>) {
        self.rotation = Quaternion::from_euler(*rot);
    }

    fn set_translation(&mut self, pos: &Vector3<T>) {
        self.translation = *pos;
    }

    fn set_scaling(&mut self, scale: &Vector3<T>) {
        self.scale = *scale;
    }
}

impl<T: FloatingPoint> Default for TransformQuaternion3D<T> {
    /// No translation, the scale one, and the quaternion of the Euler
    /// angles zero.
    fn default() -> (t: Self)
        ensures
            t == (TransformQuaternion3D {
                translation: Vector3::splat_spec(T::zero_spec()),
                scale: Vector3::splat_spec(T::one_spec()),
                rotation: Quaternion::from_euler_spec(Vector3::splat_spec(T::zero_spec())),
            }),
    {
        Self {
            translation: Vector3::from(T::zero()),
            scale: Vector3::from(T::one()),
            rotation: Quaternion::from_euler(Vector3::from(T::zero())),
        }
    }
}

/// A placement in space whose rotation is three Euler angles, about `x`,
/// `y` and `z`.
#[derive(Clone, Copy)]
pub struct Transform3D<T> {
    pub translation: Vector3<T>,
    pub scale: Vector3<T>,
    pub rotation: Vector3<T>,
}

/// The unit vector along the axis of the given number, 0 for `x`, 1 for `y`
/// and 2 for `z`, with `angle` as its fourth component: an axis and an
/// angle by which a matrix can be turned.
pub open spec fn about_axis<T: FloatingPoint>(axis: int, angle: T) -> Vector4<T> {
    let o = T::zero_spec();
    let i = T::one_spec();
    Vector4 {
        x: if axis == 0 { i } else { o },
        y: if axis == 1 { i } else { o },
        z: if axis == 2 { i } else { o },
        w: angle,
    }
}

impl<T: FloatingPoint> Transform3D<T> {
    #[inline]
    pub fn new(translation: Vector3<T>, scale: Vector3<T>, rotation: Vector3<T>) -> (t: Self)
        ensures
            t == (Transform3D { translation, scale, rotation }),
    {
        Self { translation, scale, rotation }
    }

    /// The identity moved by the translation, turned about `y`, then about
    /// `x`, then about `z`, each by the angle of its name, times the matrix
    /// of the scale.
    pub open spec fn mat4_spec(self) -> Matrix4<T> {
        translate_spec(Matrix4::<T>::identity_spec(), self.translation).rotate_spec(
            &about_axis(1, self.rotation.y),
        ).rotate_spec(&about_axis(0, self.rotation.x)).rotate_spec(
            &about_axis(2, self.rotation.z),
        ).mul_spec(Matrix4::from_scale_spec(self.scale))
    }

    pub fn mat4(&self) -> (m: Matrix4<T>)
        ensures
            m == self.mat4_spec(),
    {
        proof {
            T::arithmetic_is_total();
        }
        let mut transform = Matrix4::<T>::identity();
        transform = translate(&transform, self.translation);
        transform = transform.rotate(
            &Vector4::new(T::zero(), T::one(), T::zero(), self.rotation.y),
        );
        transform = transform.rotate(
            &Vector4::new(T::one(), T::zero(), T::zero(), self.rotation.x),
        );
        transform = transform.rotate(
            &Vector4::new(T::zero(), T::zero(), T::one(), self.rotation.z),
        );
        let scale = Matrix4::from_scale(self.scale);
        transform.mul(scale)
    }

    /// The identity turned about `y`, then about `x`, then about `z`, each
    /// by the angle of its name, times the matrix of the scale.
    pub open spec fn mat3_spec(self) -> Matrix3<T> {
        Matrix3::<T>::identity_spec().rotate_spec(&about_axis(1, self.rotation.y)).rotate_spec(
            &about_axis(0, self.rotation.x),
        ).rotate_spec(&about_axis(2, self.rotation.z)).mul_spec(
            Matrix3::from_scale_spec(self.scale),
        )
    }

    pub fn mat3(&self) -> (m: Matrix3<T>)
        ensures
            m == self.mat3_spec(),
    {
        proof {
            T::arithmetic_is_total();
        }
        let mut transform = Matrix3::<T>::identity();
        transform = transform.rotate(
            &Vector4::new(T::zero(), T::one(), T::zero(), self.rotation.y),
        );
        transform = transform.rotate(
            &Vector4::new(T::one(), T::zero(), T::zero(), self.rotation.x),
        );
        transform = transform.rotate(
            &Vector4::new(T::zero(), T::zero(), T::one(), self.rotation.z),
        );
        let scale = Matrix3::from_scale(self.scale);
        transform.mul(scale)
    }

    /// The transform with the scale replaced by its inverse, one over each
    /// component.
    pub open spec fn inverse_scaled(self) -> Self {
        Transform3D { scale: Vector3::splat_spec(T::one_spec()).div_spec(self.scale), ..self }
    }
}

impl<T: FloatingPoint> MatrixRepresentation<T> for Transform3D<T> {
    fn apply_matrix4(&self, mat: &mut Matrix4<T>)
        ensures
            *final(mat) == self.mat4_spec(),
    {
        *mat = self.mat4();
    }

    fn apply_matrix3(&self, mat: &mut Matrix3<T>)
        ensures
            *final(mat) == self.mat3_spec(),
    {
        *mat = self.mat3();
    }

    /// The matrix by which normals are transformed: that of the transform
    /// with the inverse scale.
    fn normal_matrix(&self, mat: &mut Matrix3<T>)
        ensures
            *final(mat) == self.inverse_scaled().mat3_spec(),
    {
        proof {
            T::arithmetic_is_total();
        }
        let mut x = *self;
        x.set_scaling(&Vector3::from(T::one()).div(self.scale));
        *mat = x.mat3();
    }

    fn apply_rotation3d(&self, vec: &mut Vector3<T>)
        ensures
            *final(vec) == self.rotation,
    {
        *vec = self.rotation
    }

    fn apply_translation3d(&self, vec: &mut Vector3<T>)
        ensures
            *final(vec) == self.translation,
    {
        *vec = self.translation
    }

    fn apply_scaling3d(&self, vec: &mut Vector3<T>)
        ensures
            *final(vec) == self.scale,
    {
        *vec = self.scale
    }
}

impl<T: FloatingPoint> Transform for Transform3D<T> {
    type Dimension = SolidDimension<T>;

    /// The angles add up.
    open spec fn rotated(self, rot: Vector3<T>) -> Self {
        Transform3D { rotation: self.rotation.add_spec(rot), ..self }
    }

    open spec fn translated(self, pos: Vector3<T>) -> Self {
        Transform3D { translation: self.translation.add_spec(pos), ..self }
    }

    /// The scales add up.
    open spec fn scaled(self, scale: Vector3<T>) -> Self {
        Transform3D { scale: self.scale.add_spec(scale), ..self }
    }

    open spec fn with_rotation(self, rot: Vector3<T>) -> Self {
        Transform3D { rotation: rot, ..self }
    }

    open spec fn with_translation(self, pos: Vector3<T>) -> Self {
        Transform3D { translation: pos, ..self }
    }

    open spec fn with_scaling(self, scale: Vector3<T>) -> Self {
        Transform3D { scale, ..self }
    }

    fn rotate(&mut self, rot: &Vector3<T>) {
        proof {
            T::arithmetic_is_total();
        }
        self.rotation = self.rotation.add(*rot);
    }

    fn translate(&mut self, pos: &Vector3<T>) {
        proof {
            T::arithmetic_is_total();
        }
        self.translation = self.translation.add(*pos);
    }

    fn scale(&mut self, scale: &Vector3<T>) {
        proof {
            T::arithmetic_is_total();
        }
        self.scale = self.scale.add(*scale);
    }

    fn set_rotation(&mut self, rot: &Vector3<T>) {
        self.rotation = *rot;
    }

    fn set_translation(&mut self, pos: &Vector3<T>) {
        self.translation = *pos;
    }

    fn set_scaling(&mut self, scale: &Vector3<T>) {
        self.scale = *scale;
    }
}

impl<T: FloatingPoint> Default for Transform3D<T> {
    /// No translation, no rotation, and the scale one.
    fn default() -> (t: Self)
        ensures
            t == (Transform3D {
                translation: Vector3::splat_spec(T::zero_spec()),
                scale: Vector3::splat_spec(T::one_spec()),
                rotation: Vector3::splat_spec(T::zero_spec()),
            }),
    {
        Self {
            translation: Vector3::from(T::zero()),
            scale: Vector3::from(T::one()),
            rotation: Vector3::from(T::zero()),
        }
    }
}

} // verus!
