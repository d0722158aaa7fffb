//! Which face or edge a click selects, and the selection it leaves.
use vstd::prelude::*;

verus! {

/// The faces, edges and vertices the user has selected.
#[derive(Clone, Debug)]
pub struct SelectionState<F, E, V> {
    pub selected_faces: Vec<F>,
    pub selected_edges: Vec<E>,
    pub selected_vertices: Vec<V>,
}

/// A face or an edge hit by the picking ray.
#[derive(Clone, Copy, Debug)]
pub enum PickedElement<F, E> {
    Face(F),
    Edge(E),
}

/// A ray hit on the element `id`. `distance_key` grows with the distance along the
/// ray, so that the closer of two hits has the smaller key.
#[derive(Clone, Copy, Debug)]
pub struct Hit<Id> {
    pub id: Id,
    pub distance_key: u64,
}

/// `hits[i]` is the closest hit, and no earlier hit is as close.
pub open spec fn is_first_closest<Id>(hits: Seq<Hit<Id>>, i: int) -> bool {
    &&& 0 <= i < hits.len()
    &&& forall|j: int| 0 <= j < hits.len() ==> hits[i].distance_key <= #[trigger] hits[j].distance_key
    &&& forall|j: int| 0 <= j < i ==> #[trigger] hits[j].distance_key > hits[i].distance_key
}

/// What a click picks out of the face hits and the edge hits: the first closest
/// face, unless an edge is strictly closer than every face, in which case the
/// first closest edge; nothing where there is no hit at all.
pub open spec fn picks<F, E>(face_hits: Seq<Hit<F>>, edge_hits: Seq<Hit<E>>, picked: Option<PickedElement<F, E>>) -> bool {
    match picked {
        None => face_hits.len() == 0 && edge_hits.len() == 0,
        Some(PickedElement::Face(f)) => exists|i: int|
            #[trigger] is_first_closest(face_hits, i) && face_hits[i].id == f && forall|j: int|
                0 <= j < edge_hits.len() ==> face_hits[i].distance_key <= #[trigger] edge_hits[j].distance_key,
        Some(PickedElement::Edge(e)) => exists|i: int|
            #[trigger] is_first_closest(edge_hits, i) && edge_hits[i].id == e && forall|j: int|
                0 <= j < face_hits.len() ==> edge_hits[i].distance_key < #[trigger] face_hits[j].distance_key,
    }
}

/// Picks the element a click selects, scanning the face hits and then the edge
/// hits; a hit replaces the current choice only when it is strictly closer.
pub fn pick_closest<F: Copy, E: Copy>(face_hits: &Vec<Hit<F>>, edge_hits: &Vec<Hit<E>>) -> (picked: Option<PickedElement<F, E>>)
    ensures
        picks(face_hits@, edge_hits@, picked),
{
    let mut best_face: Option<usize> = None;
    let mut i: usize = 0;
    while i < face_hits.len()
        invariant
            i <= face_hits@.len(),
            i == 0 <==> best_face is None,
            best_face matches Some(b) ==> b < i && is_first_closest(face_hits@.take(i as int), b as int),
        decreases face_hits@.len() - i,
    {
        let better = match best_face {
            None => true,
            Some(b) => face_hits[i].distance_key < face_hits[b].distance_key,
        };
        if better {
            best_face = Some(i);
        }
        proof {
            let t = face_hits@.take(i as int + 1);
            let b = best_face->0 as int;
            assert forall|j: int| 0 <= j < t.len() implies t[b].distance_key <= #[trigger] t[j].distance_key by {
                if j < i {
                    assert(t[j] == face_hits@.take(i as int)[j]);
                }
            }
            assert forall|j: int| 0 <= j < b implies #[trigger] t[j].distance_key > t[b].distance_key by {
                assert(t[j] == face_hits@.take(i as int)[j]);
            }
        }
        i = i + 1;
    }
    assert(face_hits@.take(face_hits@.len() as int) =~= face_hits@);
    let mut best_edge: Option<usize> = None;
    let mut k: usize = 0;
    while k < edge_hits.len()
        invariant
            k <= edge_hits@.len(),
            best_face is None <==> face_hits@.len() == 0,
            best_face matches Some(b) ==> b < face_hits@.len() && is_first_closest(face_hits@, b as int),
            best_edge matches Some(c) ==> c < k && is_first_closest(edge_hits@.take(k as int), c as int)
                && (best_face matches Some(b) ==> edge_hits@[c as int].distance_key
                < face_hits@[b as int].distance_key),
            best_edge is None ==> forall|j: int| 0 <= j < k ==> best_face is Some
                && face_hits@[best_face->0 as int].distance_key <= #[trigger] edge_hits@[j].distance_key,
            best_face is None ==> (k == 0 <==> best_edge is None),
        decreases edge_hits@.len() - k,
    {
        let better = match best_edge {
            Some(c) => edge_hits[k].distance_key < edge_hits[c].distance_key,
            None => match best_face {
                None => true,
                Some(b) => edge_hits[k].distance_key < face_hits[b].distance_key,
            },
        };
        let ghost prev_edge = best_edge;
        if better {
            best_edge = Some(k);
        }
        proof {
            let t = edge_hits@.take(k as int + 1);
            if best_edge is Some {
                let c = best_edge->0 as int;
                assert forall|j: int| 0 <= j < t.len() implies t[c].distance_key <= #[trigger] t[j].distance_key by {
                    if j < k {
                        assert(t[j] == edge_hits@.take(k as int)[j]);
                        if prev_edge is None {
                            assert(face_hits@[best_face->0 as int].distance_key <= edge_hits@[j].distance_key);
                        }
                    }
                }
                assert forall|j: int| 0 <= j < c implies #[trigger] t[j].distance_key > t[c].distance_key by {
                    assert(t[j] == edge_hits@.take(k as int)[j]);
                    if prev_edge is None {
                        assert(face_hits@[best_face->0 as int].distance_key <= edge_hits@[j].distance_key);
                    }
                }
            }
        }
        k = k + 1;
    }
    assert(edge_hits@.take(edge_hits@.len() as int) =~= edge_hits@);
    match best_edge {
        Some(c) => {
            assert forall|j: int| 0 <= j < face_hits@.len() implies edge_hits@[c as int].distance_key
                < #[trigger] face_hits@[j].distance_key by {
                assert(face_hits@[best_face->0 as int].distance_key <= face_hits@[j].distance_key);
            }
            assert(is_first_closest(edge_hits@, c as int));
            Some(PickedElement::Edge(edge_hits[c].id))
        },
        None => match best_face {
            Some(b) => {
                assert(is_first_closest(face_hits@, b as int));
                Some(PickedElement::Face(face_hits[b].id))
            },
            None => None,
        },
    }
}

impl<F, E, V> SelectionState<F, E, V> {
    /// Nothing selected.
    pub fn new() -> (s: SelectionState<F, E, V>)
        ensures
            s.selected_faces@ == Seq::<F>::empty(),
            s.selected_edges@ == Seq::<E>::empty(),
            s.selected_vertices@ == Seq::<V>::empty(),
    {
        SelectionState { selected_faces: Vec::new(), selected_edges: Vec::new(), selected_vertices: Vec::new() }
    }

    /// Selects exactly the picked element, or nothing.
    pub fn select(&mut self, picked: Option<PickedElement<F, E>>)
        ensures
            final(self).selected_faces@ == match picked {
                Some(PickedElement::Face(f)) => seq![f],
                _ => Seq::<F>::empty(),
            },
            final(self).selected_edges@ == match picked {
                Some(PickedElement::Edge(e)) => seq![e],
                _ => Seq::<E>::empty(),
            },
            final(self).selected_vertices@ == Seq::<V>::empty(),
    {
        self.selected_faces.clear();
        self.selected_edges.clear();
        self.selected_vertices.clear();
        match picked {
            Some(PickedElement::Edge(e)) => {
                self.selected_edges.push(e);
            },
            Some(PickedElement::Face(f)) => {
                self.selected_faces.push(f);
            },
            None => {},
        }
        assert(self.selected_faces@ =~= match picked {
            Some(PickedElement::Face(f)) => seq![f],
            _ => Seq::<F>::empty(),
        });
        assert(self.selected_edges@ =~= match picked {
            Some(PickedElement::Edge(e)) => seq![e],
            _ => Seq::<E>::empty(),
        });
    }

    /// Selects what a click with the given hits picks, and returns it.
    pub fn select_closest(&mut self, face_hits: &Vec<Hit<F>>, edge_hits: &Vec<Hit<E>>) -> (picked: Option<PickedElement<F, E>>)
        where F: Copy, E: Copy,
        ensures
            picks(face_hits@, edge_hits@, picked),
            final(self).selected_faces@ == match picked {
                Some(PickedElement::Face(f)) => seq![f],
                _ => Seq::<F>::empty(),
            },
            final(self).selected_edges@ == match picked {
                Some(PickedElement::Edge(e)) => seq![e],
                _ => Seq::<E>::empty(),
            },
            final(self).selected_vertices@ == Seq::<V>::empty(),
    {
        let picked = pick_closest(face_hits, edge_hits);
        self.select(picked);
        picked
    }
}

} // verus!
