//! Extraction of triangles into vertex/index buffers, classification
//! of the resulting vertex format, and the range collection.

use vstd::prelude::*;
use crate::model::{
    corner_in_bounds, corners_of, lemma_attr_counts_le, lemma_corners_concat,
    lemma_corners_take_succ, lemma_counts_triple, lemma_normal_corners_concat,
    lemma_texcoord_absent_count, lemma_texcoord_corners_concat, lemma_texcoord_present_count,
    normal_corners, texcoord_corners, Model, Shape, Vtn,
};
use crate::vertex::{vertex_matches, vtn_to_vertex, VertexSink};

verus! {

/// Which optional attributes were uniformly present across all
/// corners of one extraction call.
#[derive(Clone, Copy, PartialEq, Eq, Debug)]
pub enum VertexFormat {
    Position,
    PositionTexture,
    PositionNormal,
    PositionTextureNormal,
}

/// The single extraction error: within one call, texture coordinates
/// or normals were present on some corners but not on all of them.
#[derive(Clone, Copy, PartialEq, Eq, Debug)]
pub enum VertexFormatError {
    ExpectedSameVertexFormatPerGeometry,
}

/// A contiguous slice of the shared index buffer: the indices one
/// extraction call appended, identifying one sub-mesh.
#[derive(Clone, Copy, PartialEq, Eq, Debug)]
pub struct IndexRange {
    pub start: usize,
    pub length: usize,
}

/// The vertex format that `n` corners yield when `uvs` of them carry
/// texture coordinates and `normals` of them carry normals: each
/// optional attribute must be present on none or on all corners.
pub open spec fn classify(n: nat, uvs: nat, normals: nat) -> Result<
    VertexFormat,
    VertexFormatError,
> {
    if uvs == 0 && normals == 0 {
        Ok(VertexFormat::Position)
    } else if n == uvs && normals == 0 {
        Ok(VertexFormat::PositionTexture)
    } else if uvs == 0 && n == normals {
        Ok(VertexFormat::PositionNormal)
    } else if n == uvs && n == normals {
        Ok(VertexFormat::PositionTextureNormal)
    } else {
        Err(VertexFormatError::ExpectedSameVertexFormatPerGeometry)
    }
}

/// A geometry consists of a list of sub-meshes, each identified by
/// the range of the shared index buffer that holds its triangles.
pub struct Geometry(pub Vec<IndexRange>);

/// When every shape is a triangle whose corners all carry both
/// attribute indices, the counts agree with the corner total.
proof fn lemma_full_attr_counts(shapes: Seq<Shape>)
    requires
        forall|i: int|
            0 <= i < shapes.len() ==> ((#[trigger] shapes[i]) matches Shape::Triangle(a, b, c)
                && a.texcoord is Some && a.normal is Some && b.texcoord is Some && b.normal is Some
                && c.texcoord is Some && c.normal is Some),
    ensures
        corners_of(shapes).len() == 3 * shapes.len(),
        texcoord_corners(corners_of(shapes)) == corners_of(shapes).len(),
        normal_corners(corners_of(shapes)) == corners_of(shapes).len(),
    decreases shapes.len(),
{
    if shapes.len() > 0 {
        let prefix = shapes.drop_last();
        assert(forall|i: int| 0 <= i < prefix.len() ==> prefix[i] == shapes[i]);
        lemma_full_attr_counts(prefix);
        assert(shapes.last() == shapes[shapes.len() - 1]);
        match shapes.last() {
            Shape::Triangle(a, b, c) => {
                lemma_texcoord_corners_concat(corners_of(prefix), seq![a, b, c]);
                lemma_normal_corners_concat(corners_of(prefix), seq![a, b, c]);
                lemma_counts_triple(a, b, c);
            },
            _ => {
                assert(false);
            },
        }
    }
}

/// A non-empty shape list made only of triangles whose corners all
/// carry texture-coordinate and normal indices yields three corners
/// per triangle and is classified as `PositionTextureNormal`.
pub proof fn lemma_uniform_full_attributes(shapes: Seq<Shape>)
    requires
        shapes.len() > 0,
        forall|i: int|
            0 <= i < shapes.len() ==> ((#[trigger] shapes[i]) matches Shape::Triangle(a, b, c)
                && a.texcoord is Some && a.normal is Some && b.texcoord is Some && b.normal is Some
                && c.texcoord is Some && c.normal is Some),
    ensures
        corners_of(shapes).len() == 3 * shapes.len(),
        classify(
            corners_of(shapes).len(),
            texcoord_corners(corners_of(shapes)),
            normal_corners(corners_of(shapes)),
        ) == Ok::<VertexFormat, VertexFormatError>(VertexFormat::PositionTextureNormal),
{
    lemma_full_attr_counts(shapes);
}

/// A shape list without triangles yields no corners at all and is
/// classified as plain `Position`.
pub proof fn lemma_no_triangles(shapes: Seq<Shape>)
    requires
        forall|i: int| 0 <= i < shapes.len() ==> !((#[trigger] shapes[i]) is Triangle),
    ensures
        corners_of(shapes).len() == 0,
        classify(
            corners_of(shapes).len(),
            texcoord_corners(corners_of(shapes)),
            normal_corners(corners_of(shapes)),
        ) == Ok::<VertexFormat, VertexFormatError>(VertexFormat::Position),
    decreases shapes.len(),
{
    if shapes.len() > 0 {
        let prefix = shapes.drop_last();
        assert(forall|i: int| 0 <= i < prefix.len() ==> prefix[i] == shapes[i]);
        lemma_no_triangles(prefix);
        assert(shapes.last() == shapes[shapes.len() - 1]);
    }
}

/// When one corner carries a texture-coordinate index and another
/// does not, classification rejects the whole call.
pub proof fn lemma_mixed_texcoords_rejected(shapes: Seq<Shape>, i: int, j: int)
    requires
        0 <= i < corners_of(shapes).len(),
        corners_of(shapes)[i].texcoord is Some,
        0 <= j < corners_of(shapes).len(),
        corners_of(shapes)[j].texcoord is None,
    ensures
        classify(
            corners_of(shapes).len(),
            texcoord_corners(corners_of(shapes)),
            normal_corners(corners_of(shapes)),
        ) == Err::<VertexFormat, VertexFormatError>(
            VertexFormatError::ExpectedSameVertexFormatPerGeometry,
        ),
{
    lemma_texcoord_present_count(corners_of(shapes), i);
    lemma_texcoord_absent_count(corners_of(shapes), j);
}

/// Appends the vertex and the index for one corner, and bumps the
/// attribute counters that drive the format classification.
fn push_corner<S: Copy, T: VertexSink<S>>(
    a: Vtn,
    model: &Model<S>,
    vertices: &mut Vec<T>,
    indices: &mut Vec<u32>,
    uvs: &mut u32,
    normals: &mut u32,
)
    requires
        corner_in_bounds(a, model),
        old(vertices)@.len() < u32::MAX,
        *old(uvs) < u32::MAX,
        *old(normals) < u32::MAX,
    ensures
        final(vertices)@.len() == old(vertices)@.len() + 1,
        forall|j: int| 0 <= j < old(vertices)@.len() ==> final(vertices)@[j] == old(vertices)@[j],
        vertex_matches(final(vertices)@.last(), a, model),
        final(indices)@ == old(indices)@.push(old(vertices)@.len() as u32),
        *final(uvs) == *old(uvs) + (if a.texcoord is Some {
            1u32
        } else {
            0u32
        }),
        *final(normals) == *old(normals) + (if a.normal is Some {
            1u32
        } else {
            0u32
        }),
{
    if a.texcoord.is_some() {
        *uvs = *uvs + 1;
    }
    if a.normal.is_some() {
        *normals = *normals + 1;
    }
    let idx = vertices.len() as u32;
    let vertex: T = vtn_to_vertex(a, model);
    vertices.push(vertex);
    indices.push(idx);
}

impl Geometry {
    /// Creates a new, empty geometry layer.
    pub fn new() -> (g: Geometry)
        ensures
            g.0@ == Seq::<IndexRange>::empty(),
    {
        Geometry(Vec::new())
    }

    /// Appends one extraction range as the new last sub-mesh. Ranges
    /// are never checked for overlap or contiguity: that is the
    /// caller's concern.
    pub fn append(&mut self, range: IndexRange)
        ensures
            final(self).0@ == old(self).0@.push(range),
    {
        self.0.push(range);
    }

    /// Adds the triangles of one shape list to the vertex and index
    /// buffers, one fresh vertex per corner, and classifies which
    /// optional attributes the corners carried.
    ///
    /// The appends are committed even when classification fails: the
    /// returned range always covers everything appended, and the
    /// caller decides whether to keep or discard it.
    pub fn add_geometry<S: Copy, T: VertexSink<S>>(
        shapes: &Vec<Shape>,
        model: &Model<S>,
        vertices: &mut Vec<T>,
        indices: &mut Vec<u32>,
    ) -> (r: (IndexRange, Result<VertexFormat, VertexFormatError>))
        requires
            forall|k: int|
                0 <= k < corners_of(shapes@).len() ==> corner_in_bounds(
                    #[trigger] corners_of(shapes@)[k],
                    model,
                ),
            old(vertices)@.len() + corners_of(shapes@).len() <= u32::MAX,
        ensures
            r.0.start == old(indices)@.len(),
            r.0.length == corners_of(shapes@).len(),
            final(indices)@ == old(indices)@ + Seq::new(
                corners_of(shapes@).len(),
                |k: int| (old(vertices)@.len() + k) as u32,
            ),
            final(vertices)@.len() == old(vertices)@.len() + corners_of(shapes@).len(),
            forall|j: int|
                0 <= j < old(vertices)@.len() ==> final(vertices)@[j] == old(vertices)@[j],
            forall|k: int|
                0 <= k < corners_of(shapes@).len() ==> vertex_matches(
                    #[trigger] final(vertices)@[old(vertices)@.len() + k],
                    corners_of(shapes@)[k],
                    model,
                ),
            r.1 == classify(
                corners_of(shapes@).len(),
                texcoord_corners(corners_of(shapes@)),
                normal_corners(corners_of(shapes@)),
            ),
    {
        let start = indices.len();
        let base = vertices.len();
        let mut uvs: u32 = 0;
        let mut normals: u32 = 0;
        let ghost all = corners_of(shapes@);
        let ghost vertices0 = vertices@;
        let ghost indices0 = indices@;
        let mut si: usize = 0;
        while si < shapes.len()
            invariant
                si <= shapes@.len(),
                all == corners_of(shapes@),
                base == vertices0.len(),
                start == indices0.len(),
                forall|k: int| 0 <= k < all.len() ==> corner_in_bounds(#[trigger] all[k], model),
                base + all.len() <= u32::MAX,
                vertices@.len() == base + corners_of(shapes@.take(si as int)).len(),
                indices@.len() == start + corners_of(shapes@.take(si as int)).len(),
                uvs == texcoord_corners(corners_of(shapes@.take(si as int))),
                normals == normal_corners(corners_of(shapes@.take(si as int))),
                forall|j: int| 0 <= j < base ==> vertices@[j] == vertices0[j],
                forall|j: int| 0 <= j < start ==> indices@[j] == indices0[j],
                forall|k: int|
                    0 <= k < corners_of(shapes@.take(si as int)).len() ==> vertex_matches(
                        #[trigger] vertices@[base + k],
                        corners_of(shapes@.take(si as int))[k],
                        model,
                    ),
                forall|k: int|
                    0 <= k < corners_of(shapes@.take(si as int)).len() ==> #[trigger] indices@[
                        start + k
                    ] == base + k,
            decreases shapes@.len() - si,
        {
            let ghost done = corners_of(shapes@.take(si as int));
            proof {
                lemma_corners_take_succ(shapes@, si as int);
                assert(shapes@ =~= shapes@.take(si as int + 1) + shapes@.skip(si as int + 1));
                lemma_corners_concat(shapes@.take(si as int + 1), shapes@.skip(si as int + 1));
                lemma_attr_counts_le(done);
            }
            let s: Shape = shapes[si];
            match s {
                Shape::Triangle(a, b, c) => {
                    proof {
                        assert(corners_of(shapes@.take(si as int + 1)) == done + seq![a, b, c]);
                        assert(all[done.len() as int] == a);
                        assert(all[done.len() as int + 1] == b);
                        assert(all[done.len() as int + 2] == c);
                        lemma_texcoord_corners_concat(done, seq![a, b, c]);
                        lemma_normal_corners_concat(done, seq![a, b, c]);
                        lemma_counts_triple(a, b, c);
                    }
                    push_corner(a, model, vertices, indices, &mut uvs, &mut normals);
                    push_corner(b, model, vertices, indices, &mut uvs, &mut normals);
                    push_corner(c, model, vertices, indices, &mut uvs, &mut normals);
                },
                _ => {
                    proof {
                        assert(corners_of(shapes@.take(si as int + 1)) =~= done);
                    }
                },
            }
            si = si + 1;
        }
        proof {
            assert(shapes@.take(si as int) =~= shapes@);
        }
        let n = indices.len() - start;
        let range = IndexRange { start: start, length: n };
        let nu = n as u32;
        let res: Result<VertexFormat, VertexFormatError> = if uvs == 0 && normals == 0 {
            Ok(VertexFormat::Position)
        } else if nu == uvs && normals == 0 {
            Ok(VertexFormat::PositionTexture)
        } else if uvs == 0 && nu == normals {
            Ok(VertexFormat::PositionNormal)
        } else if nu == uvs && nu == normals {
            Ok(VertexFormat::PositionTextureNormal)
        } else {
            Err(VertexFormatError::ExpectedSameVertexFormatPerGeometry)
        };
        proof {
            let target = indices0 + Seq::new(all.len(), |k: int| (vertices0.len() + k) as u32);
            assert(indices@.len() == target.len());
            assert forall|i: int| 0 <= i < indices@.len() implies indices@[i] == target[i] by {
                if i >= start {
                    assert(indices@[start + (i - start)] == base + (i - start));
                }
            }
            assert(indices@ =~= target);
        }
        (range, res)
    }
}

} // verus!
