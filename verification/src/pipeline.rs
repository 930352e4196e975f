//! Model of the media pipeline: a named container of elements, identified by
//! handle, with the directed links between them.
//!
//! The real pipeline object belongs to the media framework; this model keeps
//! exactly the structure the viewer decides on — which elements were added
//! and which links were made — so that assembly can be stated and checked:
//! the viewer adds one source and one sink and links the source to the sink,
//! once, and never re-links or re-configures the pipeline afterwards.

use vstd::prelude::*;

verus! {

/// A directed graph of media elements: created empty, elements added by
/// handle, then linked. The handles stand for the framework's element
/// objects; the caller picks them and keeps them distinct.
pub struct Pipeline {
    name: Option<String>,
    elements: Vec<u64>,
    links: Vec<(u64, u64)>,
}

/// An element a sequence holds is still held after another is pushed.
proof fn lemma_push_keeps_contains(s: Seq<u64>, pushed: u64, held: u64)
    requires
        s.contains(held),
    ensures
        s.push(pushed).contains(held),
{
    let i = choose|i: int| 0 <= i < s.len() && s[i] == held;
    assert(s.push(pushed)[i] == held);
}

impl Pipeline {
    /// The handles of the elements the pipeline owns, in insertion order.
    pub closed spec fn elements(self) -> Seq<u64> {
        self.elements@
    }

    /// The links made so far, each directed from its first to its second
    /// element, in insertion order.
    pub closed spec fn links(self) -> Seq<(u64, u64)> {
        self.links@
    }

    /// The pipeline's name, as given at construction.
    pub closed spec fn name(self) -> Option<Seq<char>> {
        match self.name {
            Some(n) => Some(n@),
            None => None,
        }
    }

    /// How many elements the pipeline owns.
    pub open spec fn element_count(self) -> nat {
        self.elements().len()
    }

    /// How many links have been made.
    pub open spec fn link_count(self) -> nat {
        self.links().len()
    }

    /// Whether the pipeline owns the element with this handle.
    pub open spec fn contains_element(self, element: u64) -> bool {
        self.elements().contains(element)
    }

    /// Whether a link directed from `from` to `to` has been made.
    pub open spec fn links_from_to(self, from: u64, to: u64) -> bool {
        self.links().contains((from, to))
    }

    /// Well-formedness: no element is owned twice, and every link joins
    /// elements the pipeline owns.
    pub open spec fn wf(self) -> bool {
        &&& forall|i: int, j: int|
            0 <= i < j < self.elements().len() ==> self.elements()[i] != self.elements()[j]
        &&& forall|k: int|
            0 <= k < self.links().len() ==> self.contains_element(#[trigger] self.links()[k].0)
                && self.contains_element(self.links()[k].1)
    }

    /// How many elements the pipeline owns, as a machine integer.
    pub fn num_elements(&self) -> (r: usize)
        ensures
            r == self.element_count(),
    {
        self.elements.len()
    }

    /// How many links have been made, as a machine integer.
    pub fn num_links(&self) -> (r: usize)
        ensures
            r == self.link_count(),
    {
        self.links.len()
    }

    /// The handle of the element at this position, in insertion order.
    pub fn element_at(&self, i: usize) -> (r: u64)
        requires
            i < self.element_count(),
        ensures
            r == self.elements()[i as int],
    {
        self.elements[i]
    }

    /// The link at this position, in insertion order.
    pub fn link_at(&self, i: usize) -> (r: (u64, u64))
        requires
            i < self.link_count(),
        ensures
            r == self.links()[i as int],
    {
        self.links[i]
    }

    /// The pipeline's name, when it has one.
    pub fn name_str(&self) -> (r: Option<&str>)
        ensures
            match r {
                Some(s) => self.name() == Some(s@),
                None => self.name() is None,
            },
    {
        match &self.name {
            Some(n) => Some(n.as_str()),
            None => None,
        }
    }

    /// A new, empty pipeline with the given name.
    pub fn new(name: Option<String>) -> (p: Pipeline)
        ensures
            p.wf(),
            p.element_count() == 0,
            p.link_count() == 0,
            p.name() == (match name {
                Some(n) => Some::<Seq<char>>(n@),
                None => None::<Seq<char>>,
            }),
    {
        Pipeline { name, elements: Vec::new(), links: Vec::new() }
    }

    /// Add one element to the pipeline. The element must not already be
    /// owned: the container rejects double insertion, and the viewer never
    /// attempts it.
    pub fn add(&mut self, element: u64)
        requires
            old(self).wf(),
            !old(self).contains_element(element),
        ensures
            final(self).wf(),
            final(self).elements() == old(self).elements().push(element),
            final(self).links() == old(self).links(),
            final(self).name() == old(self).name(),
    {
        self.elements.push(element);
        proof {
            let oldes = old(self).elements();
            let es = self.elements();
            assert forall|i: int, j: int| 0 <= i < j < es.len() implies es[i] != es[j] by {
                if j < oldes.len() {
                    assert(es[i] == oldes[i] && es[j] == oldes[j]);
                } else {
                    assert(es[j] == element);
                    assert(es[i] == oldes[i]);
                    assert(oldes.contains(oldes[i]));
                }
            }
            assert forall|k: int|
                0 <= k < self.links().len() implies self.contains_element(
                #[trigger] self.links()[k].0,
            ) && self.contains_element(self.links()[k].1) by {
                assert(self.links()[k] == old(self).links()[k]);
                lemma_push_keeps_contains(oldes, element, self.links()[k].0);
                lemma_push_keeps_contains(oldes, element, self.links()[k].1);
            }
        }
    }

    /// Add a batch of elements, in order. The batch must be duplicate-free
    /// and disjoint from what the pipeline already owns.
    pub fn add_many(&mut self, elements: &Vec<u64>)
        requires
            old(self).wf(),
            forall|i: int, j: int|
                0 <= i < j < elements@.len() ==> elements@[i] != elements@[j],
            forall|i: int|
                0 <= i < elements@.len() ==> !old(self).contains_element(#[trigger] elements@[i]),
        ensures
            final(self).wf(),
            final(self).elements() == old(self).elements() + elements@,
            final(self).links() == old(self).links(),
            final(self).name() == old(self).name(),
    {
        let n = elements.len();
        let mut i: usize = 0;
        while i < n
            invariant
                n == elements@.len(),
                i <= n,
                self.wf(),
                forall|a: int, b: int|
                    0 <= a < b < elements@.len() ==> elements@[a] != elements@[b],
                forall|a: int|
                    0 <= a < elements@.len() ==> !old(self).contains_element(
                        #[trigger] elements@[a],
                    ),
                self.elements() == old(self).elements() + elements@.take(i as int),
                self.links() == old(self).links(),
                self.name() == old(self).name(),
            decreases n - i,
        {
            let e = elements[i];
            proof {
                let es = self.elements();
                let oldes = old(self).elements();
                assert forall|k: int| 0 <= k < es.len() implies es[k] != elements@[i as int] by {
                    if k < oldes.len() {
                        assert(es[k] == oldes[k]);
                        assert(oldes.contains(oldes[k]));
                    } else {
                        assert(es[k] == elements@[k - oldes.len()]);
                    }
                }
                if self.contains_element(e) {
                    let w = choose|w: int| 0 <= w < es.len() && es[w] == e;
                    assert(false);
                }
            }
            self.add(e);
            assert(self.elements() =~= old(self).elements() + elements@.take(i as int + 1));
            i = i + 1;
        }
        assert(elements@.take(n as int) =~= elements@);
    }

    /// Link two elements the pipeline owns, directed from `from` to `to`.
    pub fn link(&mut self, from: u64, to: u64)
        requires
            old(self).wf(),
            old(self).contains_element(from),
            old(self).contains_element(to),
        ensures
            final(self).wf(),
            final(self).elements() == old(self).elements(),
            final(self).links() == old(self).links().push((from, to)),
            final(self).links_from_to(from, to),
            final(self).name() == old(self).name(),
    {
        self.links.push((from, to));
        proof {
            let ls = self.links();
            assert(ls[ls.len() - 1] == (from, to));
            assert(ls.contains((from, to)));
            assert forall|k: int|
                0 <= k < ls.len() implies self.contains_element(#[trigger] ls[k].0)
                && self.contains_element(ls[k].1) by {
                if k < old(self).links().len() {
                    assert(ls[k] == old(self).links()[k]);
                }
            }
        }
    }

    /// Assemble the viewer's whole graph: add the source and the sink to an
    /// empty pipeline and link the source to the sink. Afterwards the
    /// pipeline contains exactly those two elements and exactly one link,
    /// directed from the source to the sink.
    pub fn assemble(&mut self, source: u64, sink: u64)
        requires
            old(self).wf(),
            old(self).element_count() == 0,
            old(self).link_count() == 0,
            source != sink,
        ensures
            final(self).wf(),
            final(self).elements() =~= seq![source, sink],
            final(self).links() =~= seq![(source, sink)],
            final(self).element_count() == 2,
            final(self).link_count() == 1,
            final(self).links_from_to(source, sink),
            final(self).name() == old(self).name(),
    {
        let mut batch: Vec<u64> = Vec::new();
        batch.push(source);
        batch.push(sink);
        assert(batch@ =~= seq![source, sink]);
        self.add_many(&batch);
        proof {
            assert(self.elements() =~= seq![source, sink]);
            assert(self.elements()[0] == source && self.elements()[1] == sink);
            assert(self.contains_element(source) && self.contains_element(sink));
        }
        self.link(source, sink);
    }
}

} // verus!
