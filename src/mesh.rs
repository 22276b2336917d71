//! Index assembly for one character's triangle mesh. Attachments are walked
//! in draw order; each adds its vertices, and its triangle indices offset by
//! the number of vertices that the attachments before it wrote.
use vstd::prelude::*;

verus! {

/// The geometry of one slot's visual attachment, as far as the index list
/// depends on it.
pub enum Attachment {
    /// No attachment is bound: nothing is drawn.
    Hidden,
    /// A single textured quad: four corners, two triangles.
    Region,
    /// A deformable polygon with its own vertex count and triangle list.
    Mesh { vertex_count: usize, triangles: Vec<u16> },
}

/// The index list of a character's mesh, and how many vertices it spans.
pub struct MeshIndices {
    pub vertex_count: usize,
    pub indices: Vec<u32>,
}

/// Why a character's indices could not be assembled.
#[derive(Debug, PartialEq, Eq, Structural)]
pub enum MeshError {
    /// A mesh attachment names a vertex that it does not have.
    BadTriangle,
    /// The vertices do not fit in 32-bit indices.
    TooManyVertices,
}

/// The fixed fan of a region's quad.
pub open spec fn region_triangles() -> Seq<u16> {
    seq![0u16, 1u16, 2u16, 2u16, 3u16, 0u16]
}

pub open spec fn vertices_of(a: Attachment) -> nat {
    match a {
        Attachment::Hidden => 0,
        Attachment::Region => 4,
        Attachment::Mesh { vertex_count, .. } => vertex_count as nat,
    }
}

pub open spec fn triangles_of(a: Attachment) -> Seq<u16> {
    match a {
        Attachment::Hidden => Seq::empty(),
        Attachment::Region => region_triangles(),
        Attachment::Mesh { triangles, .. } => triangles@,
    }
}

/// Every triangle index of `a` names one of its own vertices.
pub open spec fn attachment_valid(a: Attachment) -> bool {
    forall|k: int| 0 <= k < triangles_of(a).len() ==> (triangles_of(a)[k] as nat) < vertices_of(a)
}

pub open spec fn all_valid(s: Seq<Attachment>) -> bool {
    forall|i: int| 0 <= i < s.len() ==> attachment_valid(#[trigger] s[i])
}

/// The vertices of a frame: 4 for each region, the declared count for each
/// mesh, none for a hidden slot.
pub open spec fn total_vertices(s: Seq<Attachment>) -> nat
    decreases s.len(),
{
    if s.len() == 0 {
        0
    } else {
        total_vertices(s.drop_last()) + vertices_of(s.last())
    }
}

/// `tris` offset by `base`.
pub open spec fn offset_by(tris: Seq<u16>, base: nat) -> Seq<int> {
    Seq::new(tris.len(), |k: int| base + tris[k] as int)
}

/// The index list of a frame: each attachment's triangles offset by the
/// vertices of the attachments before it.
pub open spec fn frame_indices(s: Seq<Attachment>) -> Seq<int>
    decreases s.len(),
{
    if s.len() == 0 {
        Seq::empty()
    } else {
        frame_indices(s.drop_last()) + offset_by(
            triangles_of(s.last()),
            total_vertices(s.drop_last()),
        )
    }
}

pub open spec fn as_ints(v: Seq<u32>) -> Seq<int> {
    Seq::new(v.len(), |k: int| v[k] as int)
}

/// No prefix of a frame has more vertices than the whole.
pub proof fn lemma_total_vertices_prefix(s: Seq<Attachment>, k: int)
    requires
        0 <= k <= s.len(),
    ensures
        total_vertices(s.subrange(0, k)) <= total_vertices(s),
    decreases s.len() - k,
{
    if k < s.len() {
        assert(s.subrange(0, k + 1).drop_last() =~= s.subrange(0, k));
        lemma_total_vertices_prefix(s, k + 1);
    } else {
        assert(s.subrange(0, k) =~= s);
    }
}

impl Attachment {
    /// The triangle list of this attachment.
    pub fn triangles(&self) -> (r: Vec<u16>)
        ensures
            r@ == triangles_of(*self),
    {
        match self {
            Attachment::Hidden => Vec::new(),
            Attachment::Region => {
                let r = vec![0u16, 1u16, 2u16, 2u16, 3u16, 0u16];
                assert(r@ =~= region_triangles());
                r
            },
            Attachment::Mesh { triangles, .. } => triangles.clone(),
        }
    }

    /// The vertices this attachment adds.
    pub fn vertex_count(&self) -> (r: usize)
        ensures
            r == vertices_of(*self),
    {
        match self {
            Attachment::Hidden => 0,
            Attachment::Region => 4,
            Attachment::Mesh { vertex_count, .. } => *vertex_count,
        }
    }

    /// Whether every triangle index names one of this attachment's vertices.
    pub fn is_valid(&self) -> (r: bool)
        ensures
            r == attachment_valid(*self),
    {
        let tris = self.triangles();
        let n = self.vertex_count();
        let mut k: usize = 0;
        while k < tris.len()
            invariant
                tris@ == triangles_of(*self),
                n == vertices_of(*self),
                k <= tris.len(),
                forall|j: int| 0 <= j < k ==> (tris@[j] as nat) < n,
            decreases tris.len() - k,
        {
            if tris[k] as usize >= n {
                return false;
            }
            k += 1;
        }
        true
    }
}

/// Assembles the index list of one character from its attachments in draw
/// order. Fails with `BadTriangle` exactly when some attachment names a
/// vertex it lacks, and otherwise with `TooManyVertices` exactly when the
/// frame has more vertices than 32-bit indices reach.
pub fn assemble_indices(parts: &Vec<Attachment>) -> (r: Result<MeshIndices, MeshError>)
    ensures
        match r {
            Ok(m) => {
                &&& all_valid(parts@)
                &&& total_vertices(parts@) <= u32::MAX
                &&& m.vertex_count == total_vertices(parts@)
                &&& as_ints(m.indices@) == frame_indices(parts@)
            },
            Err(MeshError::BadTriangle) => !all_valid(parts@),
            Err(MeshError::TooManyVertices) => all_valid(parts@) && total_vertices(parts@)
                > u32::MAX,
        },
{
    let mut i: usize = 0;
    while i < parts.len()
        invariant
            i <= parts.len(),
            forall|j: int| 0 <= j < i ==> attachment_valid(#[trigger] parts@[j]),
        decreases parts.len() - i,
    {
        if !parts[i].is_valid() {
            return Err(MeshError::BadTriangle);
        }
        i += 1;
    }
    let mut base: u64 = 0;
    let mut indices: Vec<u32> = Vec::new();
    let mut i: usize = 0;
    while i < parts.len()
        invariant
            all_valid(parts@),
            i <= parts.len(),
            base == total_vertices(parts@.subrange(0, i as int)),
            base <= u32::MAX,
            as_ints(indices@) == frame_indices(parts@.subrange(0, i as int)),
        decreases parts.len() - i,
    {
        let ghost prefix = parts@.subrange(0, i as int);
        let ghost next = parts@.subrange(0, i + 1);
        assert(next.drop_last() =~= prefix);
        let n = parts[i].vertex_count() as u64;
        if n > u32::MAX as u64 - base {
            proof {
                lemma_total_vertices_prefix(parts@, i + 1);
            }
            return Err(MeshError::TooManyVertices);
        }
        let tris = parts[i].triangles();
        assert(attachment_valid(parts@[i as int]));
        let ghost before = indices@;
        let mut k: usize = 0;
        while k < tris.len()
            invariant
                tris@ == triangles_of(parts@[i as int]),
                attachment_valid(parts@[i as int]),
                n == vertices_of(parts@[i as int]),
                base + n <= u32::MAX,
                k <= tris.len(),
                as_ints(indices@) == as_ints(before) + offset_by(tris@.subrange(0, k as int), base as nat),
            decreases tris.len() - k,
        {
            assert((tris@[k as int] as nat) < n);
            let v = (base + tris[k] as u64) as u32;
            assert(v as int == base + tris@[k as int] as int);
            let ghost was = indices@;
            indices.push(v);
            assert(as_ints(indices@) =~= as_ints(was).push(v as int));
            assert(offset_by(tris@.subrange(0, k + 1), base as nat) =~= offset_by(
                tris@.subrange(0, k as int),
                base as nat,
            ).push(v as int));
            k += 1;
            assert(as_ints(indices@) =~= as_ints(before) + offset_by(
                tris@.subrange(0, k as int),
                base as nat,
            ));
        }
        assert(tris@.subrange(0, k as int) =~= tris@);
        base = base + n;
        i += 1;
        assert(as_ints(indices@) =~= frame_indices(next));
    }
    assert(parts@.subrange(0, i as int) =~= parts@);
    Ok(MeshIndices { vertex_count: base as usize, indices })
}

} // verus!
