use vstd::prelude::*;

verus! {

/// Why the faces of a mesh cannot be turned into triangles.
#[derive(Clone, Copy, Debug, PartialEq, Eq, Structural)]
pub enum MeshError {
    /// The face runs past the end of the index list.
    MissingIndices { face: usize },
    /// The face has fewer than three corners.
    ShortFace { face: usize },
    /// A corner of the face names a vertex that the mesh does not have.
    VertexOutOfRange { face: usize },
}

/// The three vertices of a triangle, as indices into the vertex table.
#[derive(Clone, Copy, Debug, PartialEq, Eq, Structural)]
pub struct Face {
    pub a: usize,
    pub b: usize,
    pub c: usize,
}

/// Where the corners of face `face` begin in the index list: after the corners
/// of all the faces before it.
pub open spec fn face_start(face_sizes: Seq<u32>, face: int) -> int
    decreases face,
{
    if face <= 0 {
        0
    } else {
        face_start(face_sizes, face - 1) + face_sizes[face - 1]
    }
}

/// What is wrong with face `face`, if anything. A face is tested for its
/// place in the index list first, then for its size, then for its corners.
pub open spec fn face_fault(
    indices: Seq<u32>,
    face_sizes: Seq<u32>,
    vertices: usize,
    face: int,
) -> Option<MeshError> {
    let start = face_start(face_sizes, face);
    if start + face_sizes[face] > indices.len() {
        Some(MeshError::MissingIndices { face: face as usize })
    } else if face_sizes[face] < 3 {
        Some(MeshError::ShortFace { face: face as usize })
    } else if indices[start] >= vertices || indices[start + 1] >= vertices || indices[start + 2]
        >= vertices {
        Some(MeshError::VertexOutOfRange { face: face as usize })
    } else {
        None
    }
}

/// The triangle of face `face`: its first three corners.
pub open spec fn face_at(indices: Seq<u32>, face_sizes: Seq<u32>, face: int) -> Face {
    let start = face_start(face_sizes, face);
    Face {
        a: indices[start] as usize,
        b: indices[start + 1] as usize,
        c: indices[start + 2] as usize,
    }
}

/// Turns the faces of a mesh into triangles. `indices` holds the corners of
/// all faces one after another, `face_sizes` the number of corners of each
/// face, and `vertices` is the size of the vertex table. Each face gives the
/// triangle of its first three corners. The first face that is at fault is
/// reported, and then no triangle is handed out.
pub fn triangles(indices: &Vec<u32>, face_sizes: &Vec<u32>, vertices: usize) -> (faces: Result<
    Vec<Face>,
    MeshError,
>)
    ensures
        match faces {
            Ok(faces) => {
                &&& faces@.len() == face_sizes@.len()
                &&& forall|f: int|
                    0 <= f < face_sizes@.len() ==> face_fault(indices@, face_sizes@, vertices, f)
                        is None
                &&& forall|f: int|
                    0 <= f < face_sizes@.len() ==> faces@[f] == face_at(indices@, face_sizes@, f)
            },
            Err(fault) => exists|f: int|
                {
                    &&& 0 <= f < face_sizes@.len()
                    &&& face_fault(indices@, face_sizes@, vertices, f) == Some(fault)
                    &&& forall|g: int|
                        0 <= g < f ==> face_fault(indices@, face_sizes@, vertices, g) is None
                },
        },
{
    let mut faces: Vec<Face> = Vec::new();
    let mut next_face: usize = 0;
    let mut f: usize = 0;
    while f < face_sizes.len()
        invariant
            f <= face_sizes@.len(),
            next_face == face_start(face_sizes@, f as int),
            next_face <= indices@.len(),
            faces@.len() == f,
            forall|g: int| 0 <= g < f ==> face_fault(indices@, face_sizes@, vertices, g) is None,
            forall|g: int| 0 <= g < f ==> faces@[g] == face_at(indices@, face_sizes@, g),
        decreases face_sizes@.len() - f,
    {
        let size: usize = face_sizes[f] as usize;
        if size > indices.len() - next_face {
            assert(face_fault(indices@, face_sizes@, vertices, f as int) == Some(
                MeshError::MissingIndices { face: f },
            ));
            return Err(MeshError::MissingIndices { face: f });
        }
        if size < 3 {
            assert(face_fault(indices@, face_sizes@, vertices, f as int) == Some(
                MeshError::ShortFace { face: f },
            ));
            return Err(MeshError::ShortFace { face: f });
        }
        let a: usize = indices[next_face] as usize;
        let b: usize = indices[next_face + 1] as usize;
        let c: usize = indices[next_face + 2] as usize;
        if a >= vertices || b >= vertices || c >= vertices {
            assert(face_fault(indices@, face_sizes@, vertices, f as int) == Some(
                MeshError::VertexOutOfRange { face: f },
            ));
            return Err(MeshError::VertexOutOfRange { face: f });
        }
        assert(face_fault(indices@, face_sizes@, vertices, f as int) is None);
        faces.push(Face { a, b, c });
        next_face = next_face + size;
        f += 1;
    }
    Ok(faces)
}

} // verus!
