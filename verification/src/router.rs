//! Edge-crossing router: follows the cursor on the active node and decides,
//! for each pointer delta and key event, whether it stays local or goes to
//! a remote node.
use vstd::prelude::*;
use crate::input::InputEvent;
use crate::layout::{Edge, Layout, LayoutModel};
use crate::modifier::ModifierState;
use crate::node::NodeId;

verus! {

/// One routing decision.
#[derive(Clone, Copy, Debug, PartialEq, Eq)]
pub enum Routed {
    /// Stay on the local screen; deliver the event locally as is.
    Local(InputEvent),
    /// Forward the event to the named remote node.
    Remote { target: NodeId, event: InputEvent },
}

/// Edge-crossing router state, one per active node.
#[derive(Clone, Copy, Debug)]
pub struct Router {
    /// Own node id.
    pub self_id: NodeId,
    /// Node that currently owns the cursor; equal to `self_id` while the
    /// cursor is on the local screen.
    pub active: NodeId,
    /// Modifier-key state, shipped with `Enter` events.
    pub modifiers: ModifierState,
    /// Cursor position on the local screen.
    pub x: i32,
    /// Cursor position on the local screen.
    pub y: i32,
    /// Width of the local screen.
    pub width: i32,
    /// Height of the local screen.
    pub height: i32,
}

/// The edge the cursor walked past, checked in the order left, right,
/// top, bottom.
pub open spec fn spec_crossed_edge(x: int, y: int, width: int, height: int) -> Option<Edge> {
    if x < 0 {
        Some(Edge::Left)
    } else if x >= width {
        Some(Edge::Right)
    } else if y < 0 {
        Some(Edge::Top)
    } else if y >= height {
        Some(Edge::Bottom)
    } else {
        None
    }
}

/// Half of `v`, rounded toward zero as integer division does.
pub open spec fn spec_half(v: int) -> int {
    if v >= 0 {
        v / 2
    } else {
        -((-v) / 2)
    }
}

/// `v` limited to `lo..=hi`.
pub open spec fn spec_clamp(v: int, lo: int, hi: int) -> int {
    if v < lo {
        lo
    } else if v > hi {
        hi
    } else {
        v
    }
}

/// The neighbour that a local move hands the cursor to, if it walks past a
/// glued edge.
pub open spec fn spec_handoff(r: Router, dx: i32, dy: i32, adj: Map<(Seq<u8>, Edge), NodeId>) -> Option<NodeId> {
    match spec_crossed_edge(r.x + dx, r.y + dy, r.width as int, r.height as int) {
        Some(e) => if adj.dom().contains((r.self_id@, e)) {
            Some(adj[(r.self_id@, e)])
        } else {
            None
        },
        None => None,
    }
}

/// The router and routed events after a pointer delta.
pub open spec fn spec_mouse_move(r: Router, dx: i32, dy: i32, ts: u64, adj: Map<(Seq<u8>, Edge), NodeId>) -> (Router, Seq<Routed>) {
    let ev = InputEvent::MouseMove { dx, dy, ts };
    if r.active@ != r.self_id@ {
        (r, seq![Routed::Remote { target: r.active, event: ev }])
    } else {
        match spec_handoff(r, dx, dy, adj) {
            None => (
                Router {
                    x: spec_clamp(r.x + dx, 0, r.width - 1) as i32,
                    y: spec_clamp(r.y + dy, 0, r.height - 1) as i32,
                    ..r
                },
                seq![Routed::Local(ev)],
            ),
            Some(next) => (
                Router { active: next, x: spec_half(r.width as int) as i32, y: spec_half(r.height as int) as i32, ..r },
                seq![
                    Routed::Remote { target: r.self_id, event: InputEvent::Leave { to: next } },
                    Routed::Remote {
                        target: next,
                        event: InputEvent::Enter { from: r.self_id, modifiers: r.modifiers.spec_mask() },
                    },
                ],
            ),
        }
    }
}

/// A pointer delta can be handled without overflow or an empty clamp
/// range: the new position fits in `i32`, and a move that stays local has a
/// non-empty screen to clamp into.
pub open spec fn spec_move_ok(r: Router, dx: i32, dy: i32, adj: Map<(Seq<u8>, Edge), NodeId>) -> bool {
    r.active@ == r.self_id@ ==> {
        &&& i32::MIN <= r.x + dx <= i32::MAX
        &&& i32::MIN <= r.y + dy <= i32::MAX
        &&& spec_handoff(r, dx, dy, adj) is None ==> r.width >= 1 && r.height >= 1
    }
}

/// Where a key event goes: local while we own the cursor, to the active
/// node otherwise.
pub open spec fn spec_key_route(r: Router, event: InputEvent) -> Routed {
    if r.active@ == r.self_id@ {
        Routed::Local(event)
    } else {
        Routed::Remote { target: r.active, event }
    }
}

impl Router {
    /// New router for node `self_id` with a `width` x `height` local
    /// screen; the cursor starts in the middle and is owned locally.
    pub fn new(self_id: NodeId, width: u32, height: u32) -> (r: Router)
        ensures
            r.self_id == self_id,
            r.active == self_id,
            r.modifiers@ == 0,
            r.width == width as i32,
            r.height == height as i32,
            r.x == spec_half((width as i32) as int),
            r.y == spec_half((height as i32) as int),
    {
        let w = #[verifier::truncate] (width as i32);
        let h = #[verifier::truncate] (height as i32);
        Router {
            self_id,
            active: self_id,
            modifiers: ModifierState::new(),
            x: w / 2,
            y: h / 2,
            width: w,
            height: h,
        }
    }

    /// Handle a local pointer delta. While a remote node owns the cursor
    /// the delta is forwarded to it. Otherwise the cursor moves; walking
    /// past an edge glued to a neighbour in `layout` hands the cursor over
    /// (a `Leave` for us, then an `Enter` with the held modifiers for the
    /// neighbour) and re-centres our bookkeeping; any other move is clamped
    /// to the screen and delivered locally.
    pub fn on_mouse_move(&mut self, dx: i32, dy: i32, ts: u64, layout: &Layout) -> (out: Vec<Routed>)
        requires
            layout.well_formed(),
            spec_move_ok(*old(self), dx, dy, layout@.adjacency),
        ensures
            (*final(self), out@) == spec_mouse_move(*old(self), dx, dy, ts, layout@.adjacency),
    {
        let mut out: Vec<Routed> = Vec::new();
        if !(self.active == self.self_id) {
            out.push(Routed::Remote { target: self.active, event: InputEvent::MouseMove { dx, dy, ts } });
            assert(out@ =~= seq![Routed::Remote { target: self.active, event: InputEvent::MouseMove { dx, dy, ts } }]);
            return out;
        }
        let nx = self.x + dx;
        let ny = self.y + dy;
        let crossed = if nx < 0 {
            Some(Edge::Left)
        } else if nx >= self.width {
            Some(Edge::Right)
        } else if ny < 0 {
            Some(Edge::Top)
        } else if ny >= self.height {
            Some(Edge::Bottom)
        } else {
            None
        };
        let next = match crossed {
            Some(e) => layout.neighbor(self.self_id, e),
            None => None,
        };
        match next {
            None => {
                let hx = self.width - 1;
                let hy = self.height - 1;
                self.x = if nx < 0 { 0 } else if nx > hx { hx } else { nx };
                self.y = if ny < 0 { 0 } else if ny > hy { hy } else { ny };
                out.push(Routed::Local(InputEvent::MouseMove { dx, dy, ts }));
                assert(out@ =~= seq![Routed::Local(InputEvent::MouseMove { dx, dy, ts })]);
            },
            Some(next_node) => {
                let modifiers = self.modifiers.mask();
                out.push(Routed::Remote { target: self.self_id, event: InputEvent::Leave { to: next_node } });
                out.push(Routed::Remote {
                    target: next_node,
                    event: InputEvent::Enter { from: self.self_id, modifiers },
                });
                self.active = next_node;
                self.x = self.width / 2;
                self.y = self.height / 2;
                assert(out@ =~= seq![
                    Routed::Remote { target: self.self_id, event: InputEvent::Leave { to: next_node } },
                    Routed::Remote { target: next_node, event: InputEvent::Enter { from: self.self_id, modifiers } },
                ]);
            },
        }
        out
    }

    /// Handle a key event: a key event updates the modifier state, and the
    /// event goes to whichever node owns the cursor.
    pub fn on_key(&mut self, event: InputEvent) -> (r: Routed)
        ensures
            r == spec_key_route(*old(self), event),
            final(self).self_id == old(self).self_id,
            final(self).active == old(self).active,
            final(self).x == old(self).x,
            final(self).y == old(self).y,
            final(self).width == old(self).width,
            final(self).height == old(self).height,
            final(self).modifiers@ == match event {
                InputEvent::Key { code, pressed, .. } => crate::hid::spec_apply_key(old(self).modifiers@, code.0, pressed),
                _ => old(self).modifiers@,
            },
    {
        if let InputEvent::Key { code, pressed, .. } = event {
            self.modifiers.update(code, pressed);
        }
        if self.active == self.self_id {
            Routed::Local(event)
        } else {
            Routed::Remote { target: self.active, event }
        }
    }
}

/// Law: while a remote node owns the cursor, pointer deltas go to it
/// unchanged and the router's state stays as it is.
pub proof fn law_remote_moves_forwarded(r: Router, dx: i32, dy: i32, ts: u64, adj: Map<(Seq<u8>, Edge), NodeId>)
    requires
        r.active@ != r.self_id@,
    ensures
        spec_mouse_move(r, dx, dy, ts, adj).0 == r,
        spec_mouse_move(r, dx, dy, ts, adj).1 == seq![Routed::Remote { target: r.active, event: InputEvent::MouseMove { dx, dy, ts } }],
{
}

/// Law: a local move that is not handed off leaves the cursor on the
/// local screen, and the cursor stays owned locally.
pub proof fn law_local_cursor_stays_on_screen(r: Router, dx: i32, dy: i32, ts: u64, adj: Map<(Seq<u8>, Edge), NodeId>)
    requires
        r.active@ == r.self_id@,
        spec_move_ok(r, dx, dy, adj),
        spec_handoff(r, dx, dy, adj) is None,
    ensures
        ({
            let after = spec_mouse_move(r, dx, dy, ts, adj).0;
            &&& 0 <= after.x < r.width
            &&& 0 <= after.y < r.height
            &&& after.active == r.active
        }),
{
}

/// Law: crossing a glued edge hands the cursor to the neighbour, and the
/// `Enter` it receives carries exactly the modifiers held at that moment,
/// after the `Leave` for the source.
pub proof fn law_crossing_hands_off_with_modifiers(r: Router, dx: i32, dy: i32, ts: u64, adj: Map<(Seq<u8>, Edge), NodeId>)
    requires
        r.active@ == r.self_id@,
        spec_handoff(r, dx, dy, adj) is Some,
    ensures
        ({
            let next = spec_handoff(r, dx, dy, adj)->0;
            let (after, out) = spec_mouse_move(r, dx, dy, ts, adj);
            &&& after.active == next
            &&& after.modifiers == r.modifiers
            &&& out.len() == 2
            &&& out[0] == Routed::Remote { target: r.self_id, event: InputEvent::Leave { to: next } }
            &&& out[1] == Routed::Remote { target: next, event: InputEvent::Enter { from: r.self_id, modifiers: r.modifiers.spec_mask() } }
        }),
{
}

/// The pair of events and the state of a hand-off of the cursor from `r`'s
/// own screen to `next`.
pub open spec fn spec_is_handoff_to(r: Router, after: Router, out: Seq<Routed>, next: NodeId) -> bool {
    &&& after.active == next
    &&& out == seq![
        Routed::Remote { target: r.self_id, event: InputEvent::Leave { to: next } },
        Routed::Remote { target: next, event: InputEvent::Enter { from: r.self_id, modifiers: r.modifiers.spec_mask() } },
    ]
}

/// Law: while the cursor is on the local screen, a move that walks past the
/// left side (new x below zero) goes to the neighbour glued to the `Left`
/// edge; past the right side (new x at or beyond the width) to the `Right`
/// neighbour; with x on the screen, past the top (new y below zero) to the
/// `Top` neighbour, and past the bottom (new y at or beyond the height) to
/// the `Bottom` neighbour (for a screen of non-negative size).
pub proof fn law_walking_past_a_side_reaches_its_neighbour(
    r: Router,
    dx: i32,
    dy: i32,
    ts: u64,
    adj: Map<(Seq<u8>, Edge), NodeId>,
)
    requires
        r.active@ == r.self_id@,
        r.width >= 0,
        r.height >= 0,
    ensures
        ({
            let (after, out) = spec_mouse_move(r, dx, dy, ts, adj);
            let nx = r.x + dx;
            let ny = r.y + dy;
            &&& (nx < 0 && adj.dom().contains((r.self_id@, Edge::Left)))
                ==> spec_is_handoff_to(r, after, out, adj[(r.self_id@, Edge::Left)])
            &&& (nx >= r.width && adj.dom().contains((r.self_id@, Edge::Right)))
                ==> spec_is_handoff_to(r, after, out, adj[(r.self_id@, Edge::Right)])
            &&& (0 <= nx < r.width && ny < 0 && adj.dom().contains((r.self_id@, Edge::Top)))
                ==> spec_is_handoff_to(r, after, out, adj[(r.self_id@, Edge::Top)])
            &&& (0 <= nx < r.width && ny >= r.height && adj.dom().contains((r.self_id@, Edge::Bottom)))
                ==> spec_is_handoff_to(r, after, out, adj[(r.self_id@, Edge::Bottom)])
        }),
{
}

/// Law: while the cursor is on the local screen, a move whose new position
/// stays on the screen is delivered locally and puts the cursor exactly
/// there, whatever is glued to the edges.
pub proof fn law_move_inside_the_screen_stays_local(
    r: Router,
    dx: i32,
    dy: i32,
    ts: u64,
    adj: Map<(Seq<u8>, Edge), NodeId>,
)
    requires
        r.active@ == r.self_id@,
        0 <= r.x + dx < r.width,
        0 <= r.y + dy < r.height,
    ensures
        ({
            let (after, out) = spec_mouse_move(r, dx, dy, ts, adj);
            &&& after.active == r.active
            &&& after.x == r.x + dx
            &&& after.y == r.y + dy
            &&& out == seq![Routed::Local(InputEvent::MouseMove { dx, dy, ts })]
        }),
{
}

} // verus!
