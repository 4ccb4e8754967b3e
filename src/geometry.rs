use vstd::prelude::*;

verus! {

/// Why a vertex/index pair was refused as a triangle list.
#[derive(Clone, Copy, Debug, PartialEq, Eq, Structural)]
pub enum MalformedGeometry {
    /// The index count is not a multiple of three.
    PartialTriangle { index_count: usize },
    /// The index at `position` names a vertex that does not exist.
    IndexOutOfBounds { position: usize, index: u32, vertex_count: usize },
}

/// Every index names one of `vertex_count` vertices.
pub open spec fn indices_in_range(indices: Seq<u32>, vertex_count: nat) -> bool {
    forall|k: int| 0 <= k < indices.len() ==> (#[trigger] indices[k] as nat) < vertex_count
}

/// The indices form whole triangles over `vertex_count` vertices.
pub open spec fn valid_triangle_list(indices: Seq<u32>, vertex_count: nat) -> bool {
    &&& indices.len() % 3 == 0
    &&& indices_in_range(indices, vertex_count)
}

/// The error that validation reports for a malformed index list: a partial
/// triangle is reported first; otherwise the first index that is out of range.
pub open spec fn geometry_error(indices: Seq<u32>, vertex_count: nat, e: MalformedGeometry) -> bool {
    match e {
        MalformedGeometry::PartialTriangle { index_count } => {
            &&& indices.len() % 3 != 0
            &&& index_count == indices.len()
        },
        MalformedGeometry::IndexOutOfBounds { position, index, vertex_count: n } => {
            &&& indices.len() % 3 == 0
            &&& position < indices.len()
            &&& indices[position as int] == index
            &&& index as nat >= vertex_count
            &&& n == vertex_count
            &&& indices_in_range(indices.take(position as int), vertex_count)
        },
    }
}

/// Validates an index list against a vertex count.
pub fn check_indices(indices: &Vec<u32>, vertex_count: usize) -> (r: Result<(), MalformedGeometry>)
    ensures
        r is Ok <==> valid_triangle_list(indices@, vertex_count as nat),
        r matches Err(e) ==> geometry_error(indices@, vertex_count as nat, e),
{
    if indices.len() % 3 != 0 {
        return Err(MalformedGeometry::PartialTriangle { index_count: indices.len() });
    }
    let mut k: usize = 0;
    while k < indices.len()
        invariant
            k <= indices.len(),
            indices.len() % 3 == 0,
            indices_in_range(indices@.take(k as int), vertex_count as nat),
        decreases indices.len() - k,
    {
        let index = indices[k];
        if index as usize >= vertex_count {
            return Err(MalformedGeometry::IndexOutOfBounds { position: k, index, vertex_count });
        }
        proof {
            assert(indices@.take(k as int + 1) =~= indices@.take(k as int).push(index));
        }
        k += 1;
    }
    proof {
        assert(indices@.take(k as int) =~= indices@);
    }
    Ok(())
}

/// How a drawable is drawn: through its index list, or vertex by vertex.
#[derive(Clone, Copy, Debug, PartialEq, Eq, Structural)]
pub enum DrawKind {
    Indexed { index_count: usize },
    NonIndexed { vertex_count: usize },
}

/// Validated geometry of one drawable shape: its vertices and, optionally, a
/// triangle list of indices into them. Immutable once built.
#[derive(Debug)]
pub struct Mesh<V> {
    verts: Vec<V>,
    indices: Option<Vec<u32>>,
}

impl<V> Mesh<V> {
    /// The vertices, in order.
    pub closed spec fn vertices_spec(&self) -> Seq<V> {
        self.verts@
    }

    /// The index list, if the mesh is indexed.
    pub closed spec fn indices_spec(&self) -> Option<Seq<u32>> {
        match self.indices {
            Some(ix) => Some(ix@),
            None => None,
        }
    }

    /// An index list, where present, is a whole triangle list over the vertices.
    pub open spec fn wf(&self) -> bool {
        match self.indices_spec() {
            Some(ix) => valid_triangle_list(ix, self.vertices_spec().len()),
            None => true,
        }
    }

    #[verifier::type_invariant]
    spec fn inv(&self) -> bool {
        self.wf()
    }

    /// How this mesh is drawn.
    pub open spec fn draw_kind_spec(&self) -> DrawKind {
        match self.indices_spec() {
            Some(ix) => DrawKind::Indexed { index_count: ix.len() as usize },
            None => DrawKind::NonIndexed { vertex_count: self.vertices_spec().len() as usize },
        }
    }

    /// Builds an indexed mesh; refuses an index list that is not a whole
    /// triangle list over `verts`.
    pub fn new(verts: Vec<V>, indices: Vec<u32>) -> (r: Result<Mesh<V>, MalformedGeometry>)
        ensures
            r is Ok <==> valid_triangle_list(indices@, verts@.len()),
            r matches Ok(m) ==> m.vertices_spec() == verts@ && m.indices_spec() == Some(indices@),
            r matches Err(e) ==> geometry_error(indices@, verts@.len(), e),
    {
        match check_indices(&indices, verts.len()) {
            Ok(()) => Ok(Mesh { verts, indices: Some(indices) }),
            Err(e) => Err(e),
        }
    }

    /// Builds a mesh drawn vertex by vertex, without an index list.
    pub fn new_pure(verts: Vec<V>) -> (m: Mesh<V>)
        ensures
            m.vertices_spec() == verts@,
            m.indices_spec() == None::<Seq<u32>>,
    {
        Mesh { verts, indices: None }
    }

    /// The vertices.
    pub fn vertices(&self) -> (r: &Vec<V>)
        ensures
            r@ == self.vertices_spec(),
    {
        &self.verts
    }

    /// The index list, if any.
    pub fn indices(&self) -> (r: Option<&Vec<u32>>)
        ensures
            match r {
                Some(ix) => self.indices_spec() == Some(ix@),
                None => self.indices_spec() is None,
            },
    {
        match &self.indices {
            Some(ix) => Some(ix),
            None => None,
        }
    }

    /// Number of vertices.
    pub fn vertex_count(&self) -> (r: usize)
        ensures
            r == self.vertices_spec().len(),
    {
        self.verts.len()
    }

    /// Number of indices, if the mesh is indexed.
    pub fn index_count(&self) -> (r: Option<usize>)
        ensures
            match self.indices_spec() {
                Some(ix) => r == Some(ix.len() as usize),
                None => r is None,
            },
    {
        match &self.indices {
            Some(ix) => Some(ix.len()),
            None => None,
        }
    }

    /// How this mesh is drawn.
    pub fn draw_kind(&self) -> (r: DrawKind)
        ensures
            r == self.draw_kind_spec(),
            self.wf(),
    {
        proof {
            use_type_invariant(self);
        }
        match &self.indices {
            Some(ix) => DrawKind::Indexed { index_count: ix.len() },
            None => DrawKind::NonIndexed { vertex_count: self.verts.len() },
        }
    }
}

/// Builds a mesh from vertices and an optional index list. With indices, they
/// must form whole triangles over the vertices; otherwise nothing is built.
pub fn build_mesh<V>(vertices: Vec<V>, indices: Option<Vec<u32>>) -> (r: Result<Mesh<V>, MalformedGeometry>)
    ensures
        match indices {
            Some(ix) => {
                &&& (r is Ok <==> valid_triangle_list(ix@, vertices@.len()))
                &&& (r matches Ok(m) ==> m.vertices_spec() == vertices@ && m.indices_spec() == Some(ix@))
                &&& (r matches Err(e) ==> geometry_error(ix@, vertices@.len(), e))
            },
            None => r matches Ok(m) && m.vertices_spec() == vertices@ && m.indices_spec() is None,
        },
{
    match indices {
        Some(ix) => Mesh::new(vertices, ix),
        None => Ok(Mesh::new_pure(vertices)),
    }
}

/// A drawable entry of the scene: how it is drawn, and the device buffers
/// (of the embedding program's choosing) that hold its geometry.
#[derive(Debug)]
pub struct Object<B> {
    draw: DrawKind,
    buffers: B,
}

impl<B> Object<B> {
    /// How this object is drawn.
    pub closed spec fn draw_spec(&self) -> DrawKind {
        self.draw
    }

    /// The device buffers.
    pub closed spec fn buffers_spec(&self) -> B {
        self.buffers
    }

    /// Pairs a validated mesh with the buffers its geometry was uploaded to.
    pub fn from_mesh<V>(mesh: &Mesh<V>, buffers: B) -> (r: Object<B>)
        ensures
            r.draw_spec() == mesh.draw_kind_spec(),
            r.buffers_spec() == buffers,
    {
        Object { draw: mesh.draw_kind(), buffers }
    }

    /// How this object is drawn.
    pub fn draw(&self) -> (r: DrawKind)
        ensures
            r == self.draw_spec(),
    {
        self.draw
    }

    /// The device buffers.
    pub fn buffers(&self) -> (r: &B)
        ensures
            *r == self.buffers_spec(),
    {
        &self.buffers
    }
}

} // verus!
