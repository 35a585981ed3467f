//! Logical screen topology: which node's screen lies past which edge.
use vstd::prelude::*;
use crate::assoc::{assoc_map, assoc_unique, lemma_assoc_dom, lemma_assoc_index, lemma_assoc_push_unique, lemma_assoc_update};
use crate::node::{ids_equal, NodeId};

verus! {

/// One side of a screen rectangle.
#[derive(Clone, Copy, Debug, PartialEq, Eq, Hash, Structural)]
pub enum Edge {
    /// Left.
    Left,
    /// Right.
    Right,
    /// Top.
    Top,
    /// Bottom.
    Bottom,
}

/// The opposite side.
pub open spec fn spec_opposite(e: Edge) -> Edge {
    match e {
        Edge::Left => Edge::Right,
        Edge::Right => Edge::Left,
        Edge::Top => Edge::Bottom,
        Edge::Bottom => Edge::Top,
    }
}

impl Edge {
    /// Edge of the destination screen that the cursor enters through.
    pub fn opposite(self) -> (e: Edge)
        ensures
            e == spec_opposite(self),
    {
        match self {
            Edge::Left => Edge::Right,
            Edge::Right => Edge::Left,
            Edge::Top => Edge::Bottom,
            Edge::Bottom => Edge::Top,
        }
    }
}

/// Law: the opposite of the opposite edge is the edge itself, and no edge
/// is its own opposite.
pub proof fn law_opposite_involutive(e: Edge)
    ensures
        spec_opposite(spec_opposite(e)) == e,
        spec_opposite(e) != e,
{
}

/// One screen in the virtual layout.
#[derive(Clone, Copy, Debug, PartialEq, Eq)]
pub struct Screen {
    /// Owning node.
    pub node: NodeId,
    /// Logical width in pixels.
    pub width: u32,
    /// Logical height in pixels.
    pub height: u32,
}

/// A glued edge: walking off `edge` of `from` reaches `to`.
#[derive(Clone, Copy, Debug)]
struct Link {
    from: NodeId,
    edge: Edge,
    to: NodeId,
}

/// Mathematical model of a [`Layout`].
pub struct LayoutModel {
    /// Registered screens by owning node.
    pub screens: Map<Seq<u8>, Screen>,
    /// `(node, edge)` to the node reached by walking off that edge.
    pub adjacency: Map<(Seq<u8>, Edge), NodeId>,
}

/// The virtual layout: screens by node and sparse edge adjacencies.
pub struct Layout {
    screens: Vec<Screen>,
    links: Vec<Link>,
}

spec fn screen_pairs(v: Seq<Screen>) -> Seq<(Seq<u8>, Screen)> {
    v.map_values(|s: Screen| (s.node@, s))
}

spec fn link_pairs(v: Seq<Link>) -> Seq<((Seq<u8>, Edge), NodeId)> {
    v.map_values(|l: Link| ((l.from@, l.edge), l.to))
}

impl View for Layout {
    type V = LayoutModel;

    closed spec fn view(&self) -> LayoutModel {
        LayoutModel {
            screens: assoc_map(screen_pairs(self.screens@)),
            adjacency: assoc_map(link_pairs(self.links@)),
        }
    }
}

impl Layout {
    /// Keys are unique in both tables.
    pub closed spec fn well_formed(&self) -> bool {
        assoc_unique(screen_pairs(self.screens@)) && assoc_unique(link_pairs(self.links@))
    }

    /// Empty layout.
    pub fn new() -> (l: Layout)
        ensures
            l@.screens == Map::<Seq<u8>, Screen>::empty(),
            l@.adjacency == Map::<(Seq<u8>, Edge), NodeId>::empty(),
            l.well_formed(),
    {
        let l = Layout { screens: Vec::new(), links: Vec::new() };
        assert(screen_pairs(l.screens@) =~= Seq::empty());
        assert(link_pairs(l.links@) =~= Seq::empty());
        l
    }

    /// Register or replace a screen.
    fn find_screen(&self, node: &NodeId) -> (r: Option<usize>)
        requires
            self.well_formed(),
        ensures
            match r {
                Some(i) => i < self.screens@.len() && screen_pairs(self.screens@)[i as int].0 == node@,
                None => forall|j: int| 0 <= j < self.screens@.len() ==> screen_pairs(self.screens@)[j].0 != node@,
            },
    {
        let mut i: usize = 0;
        while i < self.screens.len()
            invariant
                0 <= i <= self.screens@.len(),
                forall|j: int| 0 <= j < i ==> screen_pairs(self.screens@)[j].0 != node@,
            decreases self.screens.len() - i,
        {
            if ids_equal(&self.screens[i].node, node) {
                return Some(i);
            }
            i = i + 1;
        }
        None
    }

    fn find_link(&self, from: &NodeId, edge: Edge) -> (r: Option<usize>)
        requires
            self.well_formed(),
        ensures
            match r {
                Some(i) => i < self.links@.len() && link_pairs(self.links@)[i as int].0 == (from@, edge),
                None => forall|j: int| 0 <= j < self.links@.len() ==> link_pairs(self.links@)[j].0 != (from@, edge),
            },
    {
        let mut i: usize = 0;
        while i < self.links.len()
            invariant
                0 <= i <= self.links@.len(),
                forall|j: int| 0 <= j < i ==> link_pairs(self.links@)[j].0 != (from@, edge),
            decreases self.links.len() - i,
        {
            if self.links[i].edge == edge && ids_equal(&self.links[i].from, from) {
                return Some(i);
            }
            i = i + 1;
        }
        None
    }

    /// Register or replace a screen.
    pub fn set_screen(&mut self, screen: Screen)
        requires
            old(self).well_formed(),
        ensures
            final(self).well_formed(),
            final(self)@.screens == old(self)@.screens.insert(screen.node@, screen),
            final(self)@.adjacency == old(self)@.adjacency,
    {
        let ghost pairs = screen_pairs(self.screens@);
        let found = self.find_screen(&screen.node);
        let mut v: Vec<Screen> = Vec::new();
        std::mem::swap(&mut v, &mut self.screens);
        match found {
            Some(i) => {
                proof { lemma_assoc_update(pairs, i as int, screen); }
                v.set(i, screen);
                assert(screen_pairs(v@) =~= pairs.update(i as int, (pairs[i as int].0, screen)));
            },
            None => {
                proof { lemma_assoc_push_unique(pairs, screen.node@, screen); }
                v.push(screen);
                assert(screen_pairs(v@) =~= pairs.push((screen.node@, screen)));
            },
        }
        self.screens = v;
    }

    fn set_link(&mut self, from: NodeId, edge: Edge, to: NodeId)
        requires
            old(self).well_formed(),
        ensures
            final(self).well_formed(),
            final(self)@.adjacency == old(self)@.adjacency.insert((from@, edge), to),
            final(self)@.screens == old(self)@.screens,
    {
        let ghost pairs = link_pairs(self.links@);
        let found = self.find_link(&from, edge);
        let mut v: Vec<Link> = Vec::new();
        std::mem::swap(&mut v, &mut self.links);
        match found {
            Some(i) => {
                proof { lemma_assoc_update(pairs, i as int, to); }
                v.set(i, Link { from, edge, to });
                assert(link_pairs(v@) =~= pairs.update(i as int, (pairs[i as int].0, to)));
            },
            None => {
                proof { lemma_assoc_push_unique(pairs, (from@, edge), to); }
                v.push(Link { from, edge, to });
                assert(link_pairs(v@) =~= pairs.push(((from@, edge), to)));
            },
        }
        self.links = v;
    }

    /// Glue `from`'s `edge` to `to`, and `to`'s opposite edge back to
    /// `from`.
    pub fn connect(&mut self, from: NodeId, edge: Edge, to: NodeId)
        requires
            old(self).well_formed(),
        ensures
            final(self).well_formed(),
            final(self)@.adjacency == old(self)@.adjacency.insert((from@, edge), to).insert((to@, spec_opposite(edge)), from),
            final(self)@.screens == old(self)@.screens,
    {
        self.set_link(from, edge, to);
        self.set_link(to, edge.opposite(), from);
    }

    /// The node reached by walking off `edge` of `node`, if glued.
    pub fn neighbor(&self, node: NodeId, edge: Edge) -> (r: Option<NodeId>)
        requires
            self.well_formed(),
        ensures
            r == (if self@.adjacency.dom().contains((node@, edge)) {
                Some(self@.adjacency[(node@, edge)])
            } else {
                None
            }),
    {
        let ghost pairs = link_pairs(self.links@);
        match self.find_link(&node, edge) {
            Some(i) => {
                proof { lemma_assoc_index(pairs, i as int); }
                Some(self.links[i].to)
            },
            None => {
                proof { lemma_assoc_dom(pairs, (node@, edge)); }
                None
            },
        }
    }

    /// True if no screen is registered.
    pub fn is_empty(&self) -> (r: bool)
        ensures
            r == (self@.screens.dom() =~= Set::<Seq<u8>>::empty()),
    {
        proof {
            let pairs = screen_pairs(self.screens@);
            if self.screens.len() > 0 {
                lemma_assoc_dom(pairs, pairs[0].0);
                assert(self@.screens.dom().contains(pairs[0].0));
            } else {
                assert(pairs =~= Seq::empty());
            }
        }
        self.screens.len() == 0
    }

    /// The screen registered for `node`, if any.
    pub fn screen(&self, node: NodeId) -> (r: Option<&Screen>)
        requires
            self.well_formed(),
        ensures
            match r {
                Some(s) => self@.screens.dom().contains(node@) && *s == self@.screens[node@],
                None => !self@.screens.dom().contains(node@),
            },
    {
        let ghost pairs = screen_pairs(self.screens@);
        match self.find_screen(&node) {
            Some(i) => {
                proof { lemma_assoc_index(pairs, i as int); }
                Some(&self.screens[i])
            },
            None => {
                proof { lemma_assoc_dom(pairs, node@); }
                None
            },
        }
    }
}

/// Law: connecting is symmetric. Afterwards walking off `edge` of `from`
/// reaches `to`, and walking off the opposite edge of `to` reaches `from`.
pub proof fn law_connect_symmetric(m: Map<(Seq<u8>, Edge), NodeId>, from: NodeId, edge: Edge, to: NodeId)
    ensures
        ({
            let after = m.insert((from@, edge), to).insert((to@, spec_opposite(edge)), from);
            &&& after.dom().contains((from@, edge)) && after[(from@, edge)] == to
            &&& after.dom().contains((to@, spec_opposite(edge))) && after[(to@, spec_opposite(edge))] == from
        }),
{
    assert((to@, spec_opposite(edge)) != (from@, edge));
}

} // verus!
