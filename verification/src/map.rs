//! Turning a mesh's index buffer into the triangles of a collision mesh.

use vstd::prelude::*;

verus! {

/// An entry of an index buffer, of either width.
pub trait MeshIndex: Copy {
    /// The index as a 32-bit number.
    spec fn widened(self) -> u32;

    /// The index as a 32-bit number.
    fn widen(self) -> (r: u32)
        ensures
            r == self.widened(),
    ;
}

impl MeshIndex for u16 {
    open spec fn widened(self) -> u32 {
        self as u32
    }

    fn widen(self) -> (r: u32) {
        self as u32
    }
}

impl MeshIndex for u32 {
    open spec fn widened(self) -> u32 {
        self
    }

    fn widen(self) -> (r: u32) {
        self
    }
}

/// How an index buffer is to be read.
#[derive(Clone, Copy, Debug, PartialEq, Eq, Structural)]
pub enum Topology {
    /// Every three indices make a triangle.
    TriangleList,
    /// Triangles share corners along a strip.
    TriangleStrip,
    /// Points or lines: nothing to collide with.
    Other,
}

/// The triangle whose corners are the three indices from `start` on.
pub open spec fn triangle_at<T: MeshIndex>(indices: Seq<T>, start: int) -> Seq<u32> {
    seq![indices[start].widened(), indices[start + 1].widened(), indices[start + 2].widened()]
}

/// The triangles of a list: one for each full group of three indices.
pub open spec fn list_triangles<T: MeshIndex>(indices: Seq<T>) -> Seq<Seq<u32>> {
    Seq::new((indices.len() / 3) as nat, |i: int| triangle_at(indices, 3 * i))
}

/// The triangles read from a strip: one at every second index that has two after it.
pub open spec fn strip_triangles<T: MeshIndex>(indices: Seq<T>) -> Seq<Seq<u32>> {
    Seq::new(
        if indices.len() < 3 {
            0nat
        } else {
            ((indices.len() - 1) / 2) as nat
        },
        |i: int| triangle_at(indices, 2 * i),
    )
}

/// The corners of each triangle, as sequences.
pub open spec fn corners(triangles: Seq<[u32; 3]>) -> Seq<Seq<u32>> {
    Seq::new(triangles.len(), |i: int| triangles[i]@)
}

/// The triangles of the given topology; none for a topology without triangles.
pub open spec fn mesh_triangles_spec<T: MeshIndex>(topology: Topology, indices: Seq<T>) -> Option<
    Seq<Seq<u32>>,
> {
    match topology {
        Topology::TriangleList => Some(list_triangles(indices)),
        Topology::TriangleStrip => Some(strip_triangles(indices)),
        Topology::Other => None,
    }
}

/// Reads an index buffer as a triangle list.
pub fn triangle_list<T: MeshIndex>(slice: &[T]) -> (r: Vec<[u32; 3]>)
    ensures
        corners(r@) == list_triangles(slice@),
{
    let count: usize = slice.len() / 3;
    let mut triangles: Vec<[u32; 3]> = Vec::new();
    let mut i: usize = 0;
    while i < count
        invariant
            0 <= i <= count,
            count == slice@.len() / 3,
            3 * count <= slice@.len() <= usize::MAX,
            triangles@.len() == i,
            forall|j: int| 0 <= j < i ==> (#[trigger] triangles@[j])@ == triangle_at(slice@, 3 * j),
        decreases count - i,
    {
        let start: usize = 3 * i;
        let triangle = [slice[start].widen(), slice[start + 1].widen(), slice[start + 2].widen()];
        assert(triangle@ =~= triangle_at(slice@, 3 * i));
        triangles.push(triangle);
        i = i + 1;
    }
    assert(corners(triangles@) =~= list_triangles(slice@));
    triangles
}

/// Reads an index buffer as a triangle strip, taking a triangle at every second index.
pub fn triangle_strip<T: MeshIndex>(slice: &[T]) -> (r: Vec<[u32; 3]>)
    ensures
        corners(r@) == strip_triangles(slice@),
{
    let count: usize = if slice.len() < 3 {
        0
    } else {
        (slice.len() - 1) / 2
    };
    let mut triangles: Vec<[u32; 3]> = Vec::new();
    let mut i: usize = 0;
    while i < count
        invariant
            0 <= i <= count,
            slice@.len() < 3 ==> count == 0,
            slice@.len() >= 3 ==> count == (slice@.len() - 1) / 2,
            count > 0 ==> 2 * count + 1 <= slice@.len() <= usize::MAX,
            triangles@.len() == i,
            forall|j: int| 0 <= j < i ==> (#[trigger] triangles@[j])@ == triangle_at(slice@, 2 * j),
        decreases count - i,
    {
        let start: usize = 2 * i;
        let triangle = [slice[start].widen(), slice[start + 1].widen(), slice[start + 2].widen()];
        assert(triangle@ =~= triangle_at(slice@, 2 * i));
        triangles.push(triangle);
        i = i + 1;
    }
    assert(corners(triangles@) =~= strip_triangles(slice@));
    triangles
}

/// The triangles of a mesh with the given topology; `None` exactly for a topology that
/// has no triangles.
pub fn mesh_triangles<T: MeshIndex>(topology: Topology, indices: &[T]) -> (r: Option<
    Vec<[u32; 3]>,
>)
    ensures
        match r {
            Some(triangles) => mesh_triangles_spec(topology, indices@) == Some(
                corners(triangles@),
            ),
            None => mesh_triangles_spec(topology, indices@) is None,
        },
{
    match topology {
        Topology::TriangleList => Some(triangle_list(indices)),
        Topology::TriangleStrip => Some(triangle_strip(indices)),
        Topology::Other => None,
    }
}

} // verus!
