use vstd::prelude::*;
use crate::linear::traits::half;
use crate::linear::traits::half_spec;
use crate::linear::traits::FloatingPoint;
use crate::linear::traits::Number;
use crate::linear::traits::SignedNumber;
use crate::linear::vector::Vector3;

verus! {

/// The corner of the cube of side one about the origin that lies on the
/// upper side along each axis for which the flag holds, on the lower side
/// along the others.
pub open spec fn corner<T: FloatingPoint>(x: bool, y: bool, z: bool) -> Vector3<T> {
    Vector3 {
        x: if x { half_spec::<T>() } else { half_spec::<T>().neg_spec() },
        y: if y { half_spec::<T>() } else { half_spec::<T>().neg_spec() },
        z: if z { half_spec::<T>() } else { half_spec::<T>().neg_spec() },
    }
}

/// The vertices of the cube of side one about `ofst`: four for each of its
/// six faces.
pub open spec fn cube_vertices<T: FloatingPoint>(ofst: Vector3<T>) -> Seq<Vector3<T>> {
    seq![
        // the left face
        corner(false, false, false).add_spec(ofst),
        corner(false, true, true).add_spec(ofst),
        corner(false, false, true).add_spec(ofst),
        corner(false, true, false).add_spec(ofst),
        // the right face
        corner(true, false, false).add_spec(ofst),
        corner(true, true, true).add_spec(ofst),
        corner(true, false, true).add_spec(ofst),
        corner(true, true, false).add_spec(ofst),
        // the bottom face
        corner(false, false, false).add_spec(ofst),
        corner(true, false, true).add_spec(ofst),
        corner(false, false, true).add_spec(ofst),
        corner(true, false, false).add_spec(ofst),
        // the top face
        corner(false, true, false).add_spec(ofst),
        corner(true, true, true).add_spec(ofst),
        corner(false, true, true).add_spec(ofst),
        corner(true, true, false).add_spec(ofst),
        // the front face
        corner(false, false, true).add_spec(ofst),
        corner(true, true, true).add_spec(ofst),
        corner(false, true, true).add_spec(ofst),
        corner(true, false, true).add_spec(ofst),
        // the back face
        corner(false, false, false).add_spec(ofst),
        corner(true, true, false).add_spec(ofst),
        corner(false, true, false).add_spec(ofst),
        corner(true, false, false).add_spec(ofst),
    ]
}

/// The triangles of the cube, two for each face, as indices into its
/// vertices.
pub open spec fn cube_indices() -> Seq<u32> {
    seq![
        0u32, 1u32, 2u32, 0u32, 3u32, 1u32,
        4u32, 5u32, 6u32, 4u32, 7u32, 5u32,
        8u32, 9u32, 10u32, 8u32, 11u32, 9u32,
        12u32, 13u32, 14u32, 12u32, 15u32, 13u32,
        16u32, 17u32, 18u32, 16u32, 19u32, 17u32,
        20u32, 21u32, 22u32, 20u32, 23u32, 21u32,
    ]
}

/// A cube of side one about `ofst` as a mesh: its vertices and the
/// triangles between them.
pub fn create_cube<T: FloatingPoint>(ofst: Vector3<T>) -> (mesh: (Vec<Vector3<T>>, Vec<u32>))
    ensures
        mesh.0@ == cube_vertices(ofst),
        mesh.1@ == cube_indices(),
{
    proof {
        T::arithmetic_is_total();
    }
    let h = half::<T>();
    let l = h.neg();
    let vertices = vec![
        // the left face
        Vector3 { x: l, y: l, z: l }.add(ofst),
        Vector3 { x: l, y: h, z: h }.add(ofst),
        Vector3 { x: l, y: l, z: h }.add(ofst),
        Vector3 { x: l, y: h, z: l }.add(ofst),
        // the right face
        Vector3 { x: h, y: l, z: l }.add(ofst),
        Vector3 { x: h, y: h, z: h }.add(ofst),
        Vector3 { x: h, y: l, z: h }.add(ofst),
        Vector3 { x: h, y: h, z: l }.add(ofst),
        // the bottom face
        Vector3 { x: l, y: l, z: l }.add(ofst),
        Vector3 { x: h, y: l, z: h }.add(ofst),
        Vector3 { x: l, y: l, z: h }.add(ofst),
        Vector3 { x: h, y: l, z: l }.add(ofst),
        // the top face
        Vector3 { x: l, y: h, z: l }.add(ofst),
        Vector3 { x: h, y: h, z: h }.add(ofst),
        Vector3 { x: l, y: h, z: h }.add(ofst),
        Vector3 { x: h, y: h, z: l }.add(ofst),
        // the front face
        Vector3 { x: l, y: l, z: h }.add(ofst),
        Vector3 { x: h, y: h, z: h }.add(ofst),
        Vector3 { x: l, y: h, z: h }.add(ofst),
        Vector3 { x: h, y: l, z: h }.add(ofst),
        // the back face
        Vector3 { x: l, y: l, z: l }.add(ofst),
        Vector3 { x: h, y: h, z: l }.add(ofst),
        Vector3 { x: l, y: h, z: l }.add(ofst),
        Vector3 { x: h, y: l, z: l }.add(ofst),
    ];
    let indices = vec![
        0u32, 1u32, 2u32, 0u32, 3u32, 1u32,
        4u32, 5u32, 6u32, 4u32, 7u32, 5u32,
        8u32, 9u32, 10u32, 8u32, 11u32, 9u32,
        12u32, 13u32, 14u32, 12u32, 15u32, 13u32,
        16u32, 17u32, 18u32, 16u32, 19u32, 17u32,
        20u32, 21u32, 22u32, 20u32, 23u32, 21u32,
    ];
    assert(vertices@ =~= cube_vertices(ofst));
    assert(indices@ =~= cube_indices());
    (vertices, indices)
}

} // verus!
