//! The source model: attribute arrays plus the shapes that index them.

use vstd::prelude::*;

verus! {

/// One corner of a shape: an index into the position array, and
/// optional indices into the texture-coordinate and normal arrays.
#[derive(Clone, Copy, PartialEq, Eq, Debug)]
pub struct Vtn {
    pub position: usize,
    pub texcoord: Option<usize>,
    pub normal: Option<usize>,
}

/// A shape of the decoded model. Only triangles carry geometry that
/// extraction keeps; points and lines are skipped.
#[derive(Clone, Copy, PartialEq, Eq, Debug)]
pub enum Shape {
    Point(Vtn),
    Line(Vtn, Vtn),
    Triangle(Vtn, Vtn, Vtn),
}

/// A decoded model: three parallel attribute arrays, read-only here.
/// The scalar type is the caller's choice; this crate only copies
/// scalars, it never computes with them.
pub struct Model<S> {
    pub positions: Vec<[S; 3]>,
    pub texcoords: Vec<[S; 2]>,
    pub normals: Vec<[S; 3]>,
}

/// The corners a single shape contributes, in declaration order:
/// three for a triangle, none for anything else.
pub open spec fn shape_corners(s: Shape) -> Seq<Vtn> {
    match s {
        Shape::Triangle(a, b, c) => seq![a, b, c],
        _ => seq![],
    }
}

/// All corners of a shape sequence, flattened in input order.
pub open spec fn corners_of(shapes: Seq<Shape>) -> Seq<Vtn>
    decreases shapes.len(),
{
    if shapes.len() == 0 {
        seq![]
    } else {
        corners_of(shapes.drop_last()) + shape_corners(shapes.last())
    }
}

/// How many of the corners carry a texture-coordinate index.
pub open spec fn texcoord_corners(cs: Seq<Vtn>) -> nat
    decreases cs.len(),
{
    if cs.len() == 0 {
        0
    } else {
        texcoord_corners(cs.drop_last()) + (if cs.last().texcoord is Some {
            1nat
        } else {
            0nat
        })
    }
}

/// How many of the corners carry a normal index.
pub open spec fn normal_corners(cs: Seq<Vtn>) -> nat
    decreases cs.len(),
{
    if cs.len() == 0 {
        0
    } else {
        normal_corners(cs.drop_last()) + (if cs.last().normal is Some {
            1nat
        } else {
            0nat
        })
    }
}

/// Corners distribute over concatenation of shape lists.
pub proof fn lemma_corners_concat(x: Seq<Shape>, y: Seq<Shape>)
    ensures
        corners_of(x + y) == corners_of(x) + corners_of(y),
    decreases y.len(),
{
    if y.len() == 0 {
        assert(x + y =~= x);
        assert(corners_of(x) + corners_of(y) =~= corners_of(x));
    } else {
        lemma_corners_concat(x, y.drop_last());
        assert((x + y).drop_last() =~= x + y.drop_last());
        assert(corners_of(x) + corners_of(y.drop_last()) + shape_corners(y.last()) =~= corners_of(
            x,
        ) + (corners_of(y.drop_last()) + shape_corners(y.last())));
    }
}

/// Extending the processed prefix by one shape appends exactly that
/// shape's corners.
pub proof fn lemma_corners_take_succ(s: Seq<Shape>, i: int)
    requires
        0 <= i < s.len(),
    ensures
        corners_of(s.take(i + 1)) == corners_of(s.take(i)) + shape_corners(s[i]),
{
    assert(s.take(i + 1) =~= s.take(i) + seq![s[i]]);
    lemma_corners_concat(s.take(i), seq![s[i]]);
    assert(corners_of(seq![s[i]]) == shape_corners(s[i])) by {
        assert(seq![s[i]].drop_last() =~= Seq::<Shape>::empty());
        assert(corners_of(Seq::<Shape>::empty()) == Seq::<Vtn>::empty());
        assert(Seq::<Vtn>::empty() + shape_corners(s[i]) =~= shape_corners(s[i]));
    };
}

/// The texture-coordinate count distributes over concatenation.
pub proof fn lemma_texcoord_corners_concat(x: Seq<Vtn>, y: Seq<Vtn>)
    ensures
        texcoord_corners(x + y) == texcoord_corners(x) + texcoord_corners(y),
    decreases y.len(),
{
    if y.len() == 0 {
        assert(x + y =~= x);
    } else {
        lemma_texcoord_corners_concat(x, y.drop_last());
        assert((x + y).drop_last() =~= x + y.drop_last());
    }
}

/// The normal count distributes over concatenation.
pub proof fn lemma_normal_corners_concat(x: Seq<Vtn>, y: Seq<Vtn>)
    ensures
        normal_corners(x + y) == normal_corners(x) + normal_corners(y),
    decreases y.len(),
{
    if y.len() == 0 {
        assert(x + y =~= x);
    } else {
        lemma_normal_corners_concat(x, y.drop_last());
        assert((x + y).drop_last() =~= x + y.drop_last());
    }
}

/// Neither attribute count can exceed the number of corners.
pub proof fn lemma_attr_counts_le(cs: Seq<Vtn>)
    ensures
        texcoord_corners(cs) <= cs.len(),
        normal_corners(cs) <= cs.len(),
    decreases cs.len(),
{
    if cs.len() > 0 {
        lemma_attr_counts_le(cs.drop_last());
    }
}

/// Appending one corner raises each attribute count by one exactly
/// when that corner carries the attribute.
pub proof fn lemma_counts_push(cs: Seq<Vtn>, x: Vtn)
    ensures
        texcoord_corners(cs.push(x)) == texcoord_corners(cs) + (if x.texcoord is Some {
            1nat
        } else {
            0nat
        }),
        normal_corners(cs.push(x)) == normal_corners(cs) + (if x.normal is Some {
            1nat
        } else {
            0nat
        }),
{
    assert(cs.push(x).drop_last() =~= cs);
    assert(cs.push(x).last() == x);
}

/// The attribute counts of a three-corner sequence, spelled out.
pub proof fn lemma_counts_triple(a: Vtn, b: Vtn, c: Vtn)
    ensures
        texcoord_corners(seq![a, b, c]) == (if a.texcoord is Some {
            1nat
        } else {
            0nat
        }) + (if b.texcoord is Some {
            1nat
        } else {
            0nat
        }) + (if c.texcoord is Some {
            1nat
        } else {
            0nat
        }),
        normal_corners(seq![a, b, c]) == (if a.normal is Some {
            1nat
        } else {
            0nat
        }) + (if b.normal is Some {
            1nat
        } else {
            0nat
        }) + (if c.normal is Some {
            1nat
        } else {
            0nat
        }),
{
    assert(seq![a, b, c] =~= seq![a, b].push(c));
    assert(seq![a, b] =~= seq![a].push(b));
    assert(seq![a] =~= Seq::<Vtn>::empty().push(a));
    lemma_counts_push(Seq::<Vtn>::empty(), a);
    lemma_counts_push(seq![a], b);
    lemma_counts_push(seq![a, b], c);
    assert(texcoord_corners(Seq::<Vtn>::empty()) == 0);
    assert(normal_corners(Seq::<Vtn>::empty()) == 0);
}

/// A corner that carries a texture-coordinate index makes the count
/// positive.
pub proof fn lemma_texcoord_present_count(cs: Seq<Vtn>, i: int)
    requires
        0 <= i < cs.len(),
        cs[i].texcoord is Some,
    ensures
        texcoord_corners(cs) >= 1,
    decreases cs.len(),
{
    if i < cs.len() - 1 {
        lemma_texcoord_present_count(cs.drop_last(), i);
    }
}

/// A corner without a texture-coordinate index keeps the count below
/// the corner total.
pub proof fn lemma_texcoord_absent_count(cs: Seq<Vtn>, j: int)
    requires
        0 <= j < cs.len(),
        cs[j].texcoord is None,
    ensures
        texcoord_corners(cs) < cs.len(),
    decreases cs.len(),
{
    lemma_attr_counts_le(cs.drop_last());
    if j < cs.len() - 1 {
        lemma_texcoord_absent_count(cs.drop_last(), j);
    }
}

/// Whether a corner's indices all land inside the model's arrays.
/// The parser that produced the model is responsible for this; it is
/// assumed, not re-checked, by extraction.
pub open spec fn corner_in_bounds<S>(c: Vtn, m: &Model<S>) -> bool {
    &&& c.position < m.positions@.len()
    &&& c.texcoord is Some ==> c.texcoord->0 < m.texcoords@.len()
    &&& c.normal is Some ==> c.normal->0 < m.normals@.len()
}

} // verus!
