//! Building one vertex value from one corner reference.

use vstd::prelude::*;
use crate::model::{corner_in_bounds, Model, Vtn};

verus! {

/// A caller-chosen vertex record that extraction fills in: it starts
/// from a blank value and has its named attributes assigned one at a
/// time, each independently. The three spec views report which
/// attributes have been assigned so far, and with what.
pub trait VertexSink<S>: Sized {
    /// The position assigned so far, if any.
    spec fn position_attr(&self) -> Option<[S; 3]>;

    /// The texture coordinates assigned so far, if any.
    spec fn texcoord_attr(&self) -> Option<[S; 2]>;

    /// The normal assigned so far, if any.
    spec fn normal_attr(&self) -> Option<[S; 3]>;

    /// A blank vertex with no attribute assigned yet.
    fn blank() -> (v: Self)
        ensures
            v.position_attr() is None,
            v.texcoord_attr() is None,
            v.normal_attr() is None,
    ;

    /// Assigns the position attribute, leaving the others untouched.
    fn set_position(&mut self, p: [S; 3])
        ensures
            final(self).position_attr() == Some(p),
            final(self).texcoord_attr() == old(self).texcoord_attr(),
            final(self).normal_attr() == old(self).normal_attr(),
    ;

    /// Assigns the texture-coordinate attribute, leaving the others
    /// untouched.
    fn set_texcoord(&mut self, t: [S; 2])
        ensures
            final(self).texcoord_attr() == Some(t),
            final(self).position_attr() == old(self).position_attr(),
            final(self).normal_attr() == old(self).normal_attr(),
    ;

    /// Assigns the normal attribute, leaving the others untouched.
    fn set_normal(&mut self, n: [S; 3])
        ensures
            final(self).normal_attr() == Some(n),
            final(self).position_attr() == old(self).position_attr(),
            final(self).texcoord_attr() == old(self).texcoord_attr(),
    ;
}

/// A plain vertex record that stores exactly the attributes assigned
/// to it. It is the simplest sink, kept here for callers and tests
/// that want the extracted attributes back as data.
#[derive(Clone, Copy, PartialEq, Debug)]
pub struct RecordedVertex<S> {
    pub position: Option<[S; 3]>,
    pub texcoord: Option<[S; 2]>,
    pub normal: Option<[S; 3]>,
}

impl<S: Copy> VertexSink<S> for RecordedVertex<S> {
    open spec fn position_attr(&self) -> Option<[S; 3]> {
        self.position
    }

    open spec fn texcoord_attr(&self) -> Option<[S; 2]> {
        self.texcoord
    }

    open spec fn normal_attr(&self) -> Option<[S; 3]> {
        self.normal
    }

    fn blank() -> (v: Self) {
        RecordedVertex { position: None, texcoord: None, normal: None }
    }

    fn set_position(&mut self, p: [S; 3]) {
        self.position = Some(p);
    }

    fn set_texcoord(&mut self, t: [S; 2]) {
        self.texcoord = Some(t);
    }

    fn set_normal(&mut self, n: [S; 3]) {
        self.normal = Some(n);
    }
}

/// What a vertex built from corner `c` of model `m` must hold: the
/// referenced position always, and the referenced texture
/// coordinates and normal exactly when the corner names them.
pub open spec fn vertex_matches<S, T: VertexSink<S>>(v: T, c: Vtn, m: &Model<S>) -> bool {
    &&& v.position_attr() == Some(m.positions@[c.position as int])
    &&& v.texcoord_attr() == (match c.texcoord {
        Some(t) => Some(m.texcoords@[t as int]),
        None => None::<[S; 2]>,
    })
    &&& v.normal_attr() == (match c.normal {
        Some(n) => Some(m.normals@[n as int]),
        None => None::<[S; 3]>,
    })
}

/// Looks up a corner's attributes in the model and materializes one
/// fully-populated vertex: the position always, the texture
/// coordinates and the normal exactly when the corner references them.
pub fn vtn_to_vertex<S: Copy, T: VertexSink<S>>(a: Vtn, model: &Model<S>) -> (v: T)
    requires
        corner_in_bounds(a, model),
    ensures
        vertex_matches(v, a, model),
{
    let mut vertex: T = T::blank();
    vertex.set_position(model.positions[a.position]);
    if let Some(t) = a.texcoord {
        vertex.set_texcoord(model.texcoords[t]);
    }
    if let Some(n) = a.normal {
        vertex.set_normal(model.normals[n]);
    }
    vertex
}

} // verus!
