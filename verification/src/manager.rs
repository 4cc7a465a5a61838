//! The routing graph: the nodes by identifier, the identifiers that are
//! free to be issued again, and the dispatch that moves messages along the
//! edges.

use crate::message::{models, Message, MidiMessage};
use crate::processors::{payloads, CfgReply, MidiIO, Node};
use crate::text::{parse_unsigned, parse_unsigned_spec};
use crate::utils::{keyword_match, shortened_keyword_match, texts, words, Id};
use std::collections::HashMap;
use vstd::prelude::*;

verus! {

/// Mathematical model of the routing graph.
pub struct Graph {
    /// The live nodes, each under its identifier.
    pub nodes: Map<Id, Node>,
    /// The identifier that the counter issues next.
    pub next: Id,
    /// The identifiers that deleted nodes gave back. The last one is
    /// issued first.
    pub free: Seq<Id>,
}

impl Graph {
    /// The graph without nodes, before any identifier was issued.
    pub open spec fn empty() -> Graph {
        Graph { nodes: Map::empty(), next: 0, free: Seq::empty() }
    }

    /// The invariant of the graph: every live node is well formed and has
    /// an identifier that the counter has issued, and the identifiers
    /// given back are issued ones that no live node has, none listed twice.
    pub open spec fn wf(self) -> bool {
        &&& self.nodes.dom().finite()
        &&& forall|id: Id| #[trigger]
            self.nodes.contains_key(id) ==> id < self.next && self.nodes[id].wf()
        &&& forall|i: int|
            0 <= i < self.free.len() ==> (#[trigger] self.free[i]) < self.next
                && !self.nodes.contains_key(self.free[i])
        &&& self.free.no_duplicates()
    }

    /// Whether an identifier can be issued: one was given back, or the
    /// counter has not reached its last value.
    pub open spec fn can_allocate(self) -> bool {
        self.free.len() > 0 || self.next < Id::MAX
    }

    /// The identifier issued next: the one given back last, or else the
    /// value of the counter.
    pub open spec fn allocation(self) -> Id {
        if self.free.len() > 0 {
            self.free.last()
        } else {
            self.next
        }
    }

    /// The graph after an identifier was issued.
    pub open spec fn after_allocation(self) -> Graph {
        if self.free.len() > 0 {
            Graph { free: self.free.drop_last(), ..self }
        } else {
            Graph { next: (self.next + 1) as Id, ..self }
        }
    }

    /// The graph after `node` was put in under the identifier issued next.
    pub open spec fn inserted(self, node: Node) -> Graph {
        Graph {
            nodes: self.nodes.insert(self.allocation(), node),
            ..self.after_allocation()
        }
    }

    /// The graph after the node `id` was deleted: its identifier is given
    /// back, and no other node is touched. Where no node has the
    /// identifier nothing changes.
    pub open spec fn deleted(self, id: Id) -> Graph {
        if self.nodes.contains_key(id) {
            Graph { nodes: self.nodes.remove(id), free: self.free.push(id), ..self }
        } else {
            self
        }
    }

    /// The live identifiers below `n`, in ascending order.
    pub open spec fn ids_below(self, n: nat) -> Seq<Id>
        recommends
            n <= Id::MAX,
        decreases n,
    {
        if n == 0 {
            Seq::empty()
        } else {
            let rest = self.ids_below((n - 1) as nat);
            if self.nodes.contains_key((n - 1) as Id) {
                rest.push((n - 1) as Id)
            } else {
                rest
            }
        }
    }

    /// The identifiers of the live nodes, in ascending order.
    pub open spec fn live_ids(self) -> Seq<Id> {
        self.ids_below(self.next as nat)
    }

    /// The display names of the live nodes, in the order of their
    /// identifiers.
    pub open spec fn display_names(self) -> Seq<Seq<char>> {
        self.live_ids().map_values(|id: Id| self.nodes[id].display_name())
    }

    /// The node that a token of a command names: the live node with that
    /// identifier if the token is the number of one, or else the node
    /// whose display name the token abbreviates.
    pub open spec fn resolve(self, token: Seq<char>) -> Option<Id> {
        match parse_unsigned_spec(token, Id::MAX as nat) {
            Some(n) if self.nodes.contains_key(n as Id) => Some(n as Id),
            _ => match keyword_match(token, self.display_names()) {
                Some(i) => Some(self.live_ids()[i]),
                None => None,
            },
        }
    }

    /// Whether the node `id` has a batch to forward when it is read at the
    /// second `now`: it is live, can be read from, and its read is not empty.
    pub open spec fn sends(self, id: Id, now: u64) -> bool {
        &&& self.nodes.contains_key(id)
        &&& self.nodes[id].readable()
        &&& self.nodes[id].read_batch(now).len() > 0
    }

    /// The nodes after every readable node with an identifier below `n`
    /// was read at the second `now`.
    pub open spec fn drained_below(self, now: u64, n: nat) -> Map<Id, Node> {
        Map::new(
            |id: Id| self.nodes.contains_key(id),
            |id: Id|
                if id < n && self.nodes[id].readable() {
                    self.nodes[id].after_read(now)
                } else {
                    self.nodes[id]
                },
        )
    }

    /// The nodes after every readable node was read at the second `now`.
    pub open spec fn drained(self, now: u64) -> Map<Id, Node> {
        Map::new(
            |id: Id| self.nodes.contains_key(id),
            |id: Id|
                if self.nodes[id].readable() {
                    self.nodes[id].after_read(now)
                } else {
                    self.nodes[id]
                },
        )
    }

    /// The nodes after the batches of the sources with an identifier below
    /// `n` were delivered, in the order of the sources, on top of every
    /// node having been read. A source forwards what was read from it at
    /// the start, not what is written to it on the way.
    pub open spec fn dispatched(self, now: u64, n: nat) -> Map<Id, Node>
        recommends
            n <= Id::MAX,
        decreases n,
    {
        if n == 0 {
            self.drained(now)
        } else {
            let before = self.dispatched(now, (n - 1) as nat);
            let src = (n - 1) as Id;
            if self.sends(src, now) {
                deliver_to(before, self.nodes[src].outputs, self.nodes[src].read_batch(now))
            } else {
                before
            }
        }
    }

    /// The graph after one dispatch tick at the second `now`: every
    /// readable node is read, and then each batch that is not empty is
    /// written to the outputs of its source.
    pub open spec fn tick(self, now: u64) -> Graph {
        Graph { nodes: self.dispatched(now, self.next as nat), ..self }
    }

    /// The graph with the node `id` replaced by `node`.
    pub open spec fn updated(self, id: Id, node: Node) -> Graph {
        Graph { nodes: self.nodes.insert(id, node), ..self }
    }
}

/// The nodes after one batch was written to each of `outs` in turn. An
/// output that names no live node, or a node that cannot be written to, is
/// passed over.
pub open spec fn deliver_to(nodes: Map<Id, Node>, outs: Seq<Id>, batch: Seq<Message>) -> Map<
    Id,
    Node,
>
    decreases outs.len(),
{
    if outs.len() == 0 {
        nodes
    } else {
        let before = deliver_to(nodes, outs.drop_last(), batch);
        let o = outs.last();
        if before.contains_key(o) && before[o].writable() {
            before.insert(o, before[o].after_write(batch))
        } else {
            before
        }
    }
}

/// Deleting a live node and creating another reuses the identifier that
/// was freed, and leaves the counter where it was.
pub proof fn lemma_freed_identifier_is_reused(g: Graph, id: Id, node: Node)
    requires
        g.wf(),
        g.nodes.contains_key(id),
    ensures
        g.deleted(id).can_allocate(),
        g.deleted(id).allocation() == id,
        g.deleted(id).inserted(node).next == g.next,
        g.deleted(id).inserted(node).free == g.free,
        g.deleted(id).inserted(node).nodes == g.nodes.insert(id, node),
{
    assert(g.free.push(id).drop_last() =~= g.free);
    assert(g.nodes.remove(id).insert(id, node) =~= g.nodes.insert(id, node));
}

/// The identifier issued next belongs to no live node, so a new node never
/// shares its identifier with another, and every other node stays as it is.
pub proof fn lemma_issued_identifier_is_fresh(g: Graph, node: Node)
    requires
        g.wf(),
        g.can_allocate(),
        node.wf(),
    ensures
        !g.nodes.contains_key(g.allocation()),
        g.inserted(node).wf(),
        g.inserted(node).nodes.dom() == g.nodes.dom().insert(g.allocation()),
        forall|other: Id| #[trigger]
            g.nodes.contains_key(other) ==> g.inserted(node).nodes[other] == g.nodes[other],
{
    let id = g.allocation();
    let after = g.inserted(node);
    if g.free.len() > 0 {
        assert(g.free[g.free.len() - 1] == id);
        assert forall|i: int| 0 <= i < after.free.len() implies (#[trigger] after.free[i])
            < after.next && !after.nodes.contains_key(after.free[i]) by {
            assert(after.free[i] == g.free[i]);
            assert(g.free[i] != g.free[g.free.len() - 1]);
        }
    } else {
        assert forall|i: int| 0 <= i < after.free.len() implies (#[trigger] after.free[i])
            < after.next && !after.nodes.contains_key(after.free[i]) by {
            assert(after.free[i] == g.free[i]);
        }
    }
    assert(after.nodes.dom() =~= g.nodes.dom().insert(id));
}

/// Deleting a node keeps the graph well formed and touches no other node:
/// an edge that led to the deleted node stays where it was.
pub proof fn lemma_delete_keeps_other_nodes(g: Graph, id: Id)
    requires
        g.wf(),
    ensures
        g.deleted(id).wf(),
        !g.deleted(id).nodes.contains_key(id),
        forall|other: Id|
            other != id && g.nodes.contains_key(other) ==> #[trigger] g.deleted(
                id,
            ).nodes.contains_key(other) && g.deleted(id).nodes[other] == g.nodes[other],
{
    let after = g.deleted(id);
    if g.nodes.contains_key(id) {
        assert forall|i: int| 0 <= i < after.free.len() implies (#[trigger] after.free[i])
            < after.next && !after.nodes.contains_key(after.free[i]) by {
            if i < g.free.len() {
                assert(after.free[i] == g.free[i]);
            }
        }
        assert(after.free.no_duplicates()) by {
            assert forall|i: int, j: int|
                0 <= i < after.free.len() && 0 <= j < after.free.len() && i != j implies after.free[i]
                != after.free[j] by {
                if i < g.free.len() && j < g.free.len() {
                    assert(g.free[i] != g.free[j]);
                } else if i < g.free.len() {
                    assert(!g.nodes.contains_key(g.free[i]));
                } else {
                    assert(!g.nodes.contains_key(g.free[j]));
                }
            }
        }
    }
}

/// The identifiers listed below `n` are live, below `n`, and in strictly
/// ascending order; every live identifier below `n` is among them.
pub proof fn lemma_ids_below(g: Graph, n: nat)
    requires
        n <= Id::MAX,
    ensures
        forall|i: int|
            0 <= i < g.ids_below(n).len() ==> g.nodes.contains_key(#[trigger] g.ids_below(n)[i])
                && g.ids_below(n)[i] < n,
        forall|i: int, j: int|
            0 <= i < j < g.ids_below(n).len() ==> g.ids_below(n)[i] < g.ids_below(n)[j],
        forall|id: Id| id < n && g.nodes.contains_key(id) ==> g.ids_below(n).contains(id),
        g.ids_below(n).len() <= n,
    decreases n,
{
    if n > 0 {
        let rest = g.ids_below((n - 1) as nat);
        lemma_ids_below(g, (n - 1) as nat);
        let last = (n - 1) as Id;
        if g.nodes.contains_key(last) {
            let all = rest.push(last);
            assert forall|id: Id| id < n && g.nodes.contains_key(id) implies all.contains(id) by {
                if id == last {
                    assert(all[rest.len() as int] == id);
                } else {
                    assert(rest.contains(id));
                    let i = choose|i: int| 0 <= i < rest.len() && rest[i] == id;
                    assert(all[i] == id);
                }
            }
        }
    }
}

/// A token that resolves names a live node.
pub proof fn lemma_resolve_is_live(g: Graph, token: Seq<char>)
    ensures
        g.resolve(token) matches Some(id) ==> g.nodes.contains_key(id),
{
    lemma_ids_below(g, g.next as nat);
    if let Some(i) = keyword_match(token, g.display_names()) {
        let names = g.display_names();
        if exists|i: int| crate::utils::is_first_exact(token, names, i) {
            let k = choose|i: int| crate::utils::is_first_exact(token, names, i);
            assert(0 <= k < g.live_ids().len());
        } else {
            let k = choose|i: int| crate::utils::is_only_prefix(token, names, i);
            assert(0 <= k < g.live_ids().len());
        }
    }
}

/// Delivering a batch creates and removes no node, and leaves every node
/// that is not among the outputs as it was.
pub proof fn lemma_deliver_to_frame(nodes: Map<Id, Node>, outs: Seq<Id>, batch: Seq<Message>)
    ensures
        deliver_to(nodes, outs, batch).dom() == nodes.dom(),
        forall|id: Id|
            !outs.contains(id) && nodes.contains_key(id) ==> #[trigger] deliver_to(
                nodes,
                outs,
                batch,
            )[id] == nodes[id],
    decreases outs.len(),
{
    if outs.len() > 0 {
        let rest = outs.drop_last();
        lemma_deliver_to_frame(nodes, rest, batch);
        let before = deliver_to(nodes, rest, batch);
        assert(deliver_to(nodes, outs, batch).dom() =~= nodes.dom());
        assert forall|id: Id| !outs.contains(id) && nodes.contains_key(id) implies #[trigger] deliver_to(
            nodes,
            outs,
            batch,
        )[id] == nodes[id] by {
            assert(outs[outs.len() - 1] == outs.last());
            assert(id != outs.last());
            if rest.contains(id) {
                let i = choose|i: int| 0 <= i < rest.len() && rest[i] == id;
                assert(outs[i] == id);
            }
        }
    } else {
        assert(deliver_to(nodes, outs, batch).dom() =~= nodes.dom());
    }
}

/// An output that names no live node is passed over in silence: the
/// delivery comes to the same as if the output were not listed.
pub proof fn lemma_dangling_output_is_passed_over(
    nodes: Map<Id, Node>,
    outs: Seq<Id>,
    batch: Seq<Message>,
    gone: Id,
)
    requires
        !nodes.contains_key(gone),
    ensures
        deliver_to(nodes, outs, batch) == deliver_to(
            nodes,
            outs.filter(|o: Id| o != gone),
            batch,
        ),
    decreases outs.len(),
{
    reveal(Seq::filter);
    let keep = |o: Id| o != gone;
    if outs.len() > 0 {
        let rest = outs.drop_last();
        lemma_dangling_output_is_passed_over(nodes, rest, batch, gone);
        lemma_deliver_to_frame(nodes, rest, batch);
        let before = deliver_to(nodes, rest, batch);
        if outs.last() == gone {
            assert(!before.dom().contains(gone));
        } else {
            let kept = rest.filter(keep).push(outs.last());
            assert(kept.drop_last() =~= rest.filter(keep));
            assert(kept.last() == outs.last());
        }
    }
}

/// Delivering the batches of the sources below `n` creates and removes
/// no node.
proof fn lemma_dispatched_keeps_nodes(g: Graph, now: u64, n: nat)
    requires
        n <= Id::MAX,
    ensures
        g.dispatched(now, n).dom() == g.nodes.dom(),
    decreases n,
{
    if n == 0 {
        assert(g.drained(now).dom() =~= g.nodes.dom());
    } else {
        lemma_dispatched_keeps_nodes(g, now, (n - 1) as nat);
        let src = (n - 1) as Id;
        if g.sends(src, now) {
            lemma_deliver_to_frame(
                g.dispatched(now, (n - 1) as nat),
                g.nodes[src].outputs,
                g.nodes[src].read_batch(now),
            );
        }
    }
}

/// Where no source below `n` that lists `node` as an output has anything
/// to send, the deliveries of the sources below `n` leave `node` as the
/// reading left it.
proof fn lemma_dispatched_isolation(g: Graph, now: u64, node: Id, n: nat)
    requires
        n <= Id::MAX,
        g.nodes.contains_key(node),
        forall|src: Id| src < n && g.sends(src, now) ==> !g.nodes[src].outputs.contains(node),
    ensures
        g.dispatched(now, n)[node] == g.drained(now)[node],
    decreases n,
{
    if n > 0 {
        lemma_dispatched_isolation(g, now, node, (n - 1) as nat);
        lemma_dispatched_keeps_nodes(g, now, (n - 1) as nat);
        let src = (n - 1) as Id;
        if g.sends(src, now) {
            let before = g.dispatched(now, (n - 1) as nat);
            assert(before.dom().contains(node));
            lemma_deliver_to_frame(before, g.nodes[src].outputs, g.nodes[src].read_batch(now));
        }
    }
}

/// Where `src` is the only sender that lists `dst`, and lists nothing
/// else, the deliveries of the sources below `n` write `dst` the batch of
/// `src` once `src` is among them, and nothing before.
proof fn lemma_dispatched_single_delivery(g: Graph, now: u64, src: Id, dst: Id, n: nat)
    requires
        n <= Id::MAX,
        g.nodes.contains_key(dst),
        g.sends(src, now),
        g.nodes[src].outputs == seq![dst],
        forall|other: Id|
            other != src && g.sends(other, now) ==> !g.nodes[other].outputs.contains(dst),
    ensures
        g.dispatched(now, n)[dst] == if src < n && g.drained(now)[dst].writable() {
            g.drained(now)[dst].after_write(g.nodes[src].read_batch(now))
        } else {
            g.drained(now)[dst]
        },
    decreases n,
{
    if n > 0 {
        lemma_dispatched_single_delivery(g, now, src, dst, (n - 1) as nat);
        lemma_dispatched_keeps_nodes(g, now, (n - 1) as nat);
        let last = (n - 1) as Id;
        let before = g.dispatched(now, (n - 1) as nat);
        assert(before.dom().contains(dst));
        if g.sends(last, now) {
            let outs = g.nodes[last].outputs;
            let batch = g.nodes[last].read_batch(now);
            if last == src {
                assert(outs.drop_last() =~= Seq::<Id>::empty());
                assert(deliver_to(before, outs.drop_last(), batch) == before);
                assert(outs.last() == dst);
            } else {
                lemma_deliver_to_frame(before, outs, batch);
            }
        }
    }
}

/// A tick creates and removes no node and issues no identifier.
pub proof fn lemma_tick_keeps_nodes(g: Graph, now: u64)
    ensures
        g.tick(now).nodes.dom() == g.nodes.dom(),
        g.tick(now).next == g.next,
        g.tick(now).free == g.free,
{
    lemma_dispatched_keeps_nodes(g, now, g.next as nat);
}

/// Dispatch isolation. A node receives in a tick only what was read, at
/// the start of that tick, from the sources that list it as an output. So
/// where none of those sources has anything to send, the node ends the
/// tick as the reading left it, with nothing new in it, whatever is
/// written to those sources during the tick: that can be read from the
/// node in the next tick at the earliest.
pub proof fn lemma_dispatch_isolation(g: Graph, now: u64, node: Id)
    requires
        g.wf(),
        g.nodes.contains_key(node),
        forall|src: Id| g.sends(src, now) ==> !g.nodes[src].outputs.contains(node),
    ensures
        g.tick(now).nodes[node] == g.drained(now)[node],
        g.nodes[node].buffers() ==> g.tick(now).nodes[node].pending == Seq::<Message>::empty(),
        g.tick(now).nodes[node].outbox == g.nodes[node].outbox,
{
    lemma_dispatched_isolation(g, now, node, g.next as nat);
}

/// What a tick hands the only destination of the only sender that lists
/// it: the node `dst`, read like every other node, is written the batch
/// that was read from `src` at the start of the tick.
pub proof fn lemma_single_delivery(g: Graph, now: u64, src: Id, dst: Id)
    requires
        g.wf(),
        g.nodes.contains_key(dst),
        g.nodes[dst].writable(),
        g.sends(src, now),
        g.nodes[src].outputs == seq![dst],
        forall|other: Id|
            other != src && g.sends(other, now) ==> !g.nodes[other].outputs.contains(dst),
    ensures
        g.tick(now).nodes[dst] == g.drained(now)[dst].after_write(g.nodes[src].read_batch(now)),
{
    lemma_dispatched_single_delivery(g, now, src, dst, g.next as nat);
}

/// What was read from one node in a tick, with where it goes.
struct Batch {
    outputs: Vec<Id>,
    messages: Vec<MidiMessage>,
}

/// Owns every node of the graph and routes the messages between them.
pub struct MidiManager {
    map: HashMap<Id, MidiIO>,
    id_ctr: Id,
    returned_ids: Vec<Id>,
}

impl View for MidiManager {
    type V = Graph;

    closed spec fn view(&self) -> Graph {
        Graph {
            nodes: self.map@.map_values(|n: MidiIO| n.model()),
            next: self.id_ctr,
            free: self.returned_ids@,
        }
    }
}

impl MidiManager {
    /// The invariant of the manager: its graph is well formed, and so is
    /// every node it owns.
    pub closed spec fn wf(&self) -> bool {
        &&& self@.wf()
        &&& forall|id: Id| #[trigger] self.map@.contains_key(id) ==> self.map@[id].wf()
    }

    /// A well-formed manager has a well-formed graph.
    pub proof fn lemma_wf(&self)
        requires
            self.wf(),
        ensures
            self@.wf(),
    {
    }

    /// A manager without nodes.
    pub fn new() -> (res: MidiManager)
        ensures
            res.wf(),
            res@ == Graph::empty(),
    {
        let res = MidiManager { map: HashMap::new(), id_ctr: 0, returned_ids: Vec::new() };
        assert(res@.nodes =~= Map::empty());
        res
    }

    /// Whether an identifier is left to issue.
    pub fn can_allocate(&self) -> (res: bool)
        ensures
            res == self@.can_allocate(),
    {
        self.returned_ids.len() > 0 || self.id_ctr < Id::MAX
    }

    /// Issues an identifier: the one given back last, or else the value of
    /// the counter, which then moves on.
    pub fn next_id(&mut self) -> (id: Id)
        requires
            old(self).wf(),
            old(self)@.can_allocate(),
        ensures
            final(self).wf(),
            id == old(self)@.allocation(),
            final(self)@ == old(self)@.after_allocation(),
            !final(self)@.nodes.contains_key(id),
    {
        proof {
            let g = old(self)@;
            if g.free.len() > 0 {
                assert(g.free[g.free.len() - 1] == g.allocation());
                assert forall|i: int| 0 <= i < g.free.len() - 1 implies g.free.drop_last()[i]
                    == g.free[i] by {}
            }
        }
        if let Some(i) = self.returned_ids.pop() {
            assert(self.returned_ids@ =~= old(self)@.free.drop_last());
            i
        } else {
            assert(old(self)@.free.len() == 0);
            let i = self.id_ctr;
            self.id_ctr += 1;
            i
        }
    }

    /// Puts a node into the graph under a newly issued identifier, which
    /// no live node has, and returns the identifier.
    pub fn insert(&mut self, node: MidiIO) -> (id: Id)
        requires
            old(self).wf(),
            old(self)@.can_allocate(),
            node.wf(),
        ensures
            final(self).wf(),
            id == old(self)@.allocation(),
            !old(self)@.nodes.contains_key(id),
            final(self)@ == old(self)@.inserted(node.model()),
    {
        proof {
            lemma_issued_identifier_is_fresh(old(self)@, node.model());
        }
        let id = self.next_id();
        self.map.insert(id, node);
        proof {
            assert(self@.nodes =~= old(self)@.nodes.insert(id, node.model()));
        }
        id
    }

    /// Deletes the node `id`, if there is one, and gives its identifier
    /// back. The outputs of the other nodes are not touched, so an edge to
    /// the deleted node stays behind. Returns whether there was a node.
    pub fn delete(&mut self, id: Id) -> (res: bool)
        requires
            old(self).wf(),
        ensures
            final(self).wf(),
            res == old(self)@.nodes.contains_key(id),
            final(self)@ == old(self)@.deleted(id),
    {
        proof {
            lemma_delete_keeps_other_nodes(old(self)@, id);
        }
        match self.map.remove(&id) {
            Some(node) => {
                node.delete();
                self.returned_ids.push(id);
                proof {
                    assert(self@.nodes =~= old(self)@.nodes.remove(id));
                }
                true
            },
            None => {
                proof {
                    assert(self@.nodes =~= old(self)@.nodes);
                }
                false
            },
        }
    }

    /// Whether `id` names a live node.
    pub fn contains(&self, id: Id) -> (res: bool)
        ensures
            res == self@.nodes.contains_key(id),
    {
        self.map.contains_key(&id)
    }

    /// Takes the node `id` out of the map, to put it back changed.
    fn take(&mut self, id: Id) -> (node: MidiIO)
        requires
            old(self).map@.contains_key(id),
        ensures
            node == old(self).map@[id],
            final(self).map@ == old(self).map@.remove(id),
            final(self).id_ctr == old(self).id_ctr,
            final(self).returned_ids == old(self).returned_ids,
    {
        match self.map.remove(&id) {
            Some(node) => node,
            None => vstd::pervasive::unreached(),
        }
    }

    /// Puts a node back under the identifier it was taken from.
    fn put(&mut self, id: Id, node: MidiIO)
        ensures
            final(self).map@ == old(self).map@.insert(id, node),
            final(self).id_ctr == old(self).id_ctr,
            final(self).returned_ids == old(self).returned_ids,
    {
        self.map.insert(id, node);
    }

    /// What taking a node out, changing it and putting it back comes to.
    proof fn lemma_replaced(before: &MidiManager, after: &MidiManager, id: Id, node: MidiIO)
        requires
            before.wf(),
            before.map@.contains_key(id),
            node.wf(),
            after.map@ == before.map@.remove(id).insert(id, node),
            after.id_ctr == before.id_ctr,
            after.returned_ids == before.returned_ids,
        ensures
            after.wf(),
            after@ == before@.updated(id, node.model()),
    {
        assert(after@.nodes =~= before@.nodes.insert(id, node.model()));
        assert(after@.nodes.dom() =~= before@.nodes.dom());
    }

    /// Whether messages can be read from the live node `id`.
    pub fn can_read(&self, id: Id) -> (res: bool)
        requires
            self@.nodes.contains_key(id),
        ensures
            res == self@.nodes[id].readable(),
    {
        match self.map.get(&id) {
            Some(node) => node.can_read(),
            None => vstd::pervasive::unreached(),
        }
    }

    /// Whether messages can be written to the live node `id`.
    pub fn can_write(&self, id: Id) -> (res: bool)
        requires
            self@.nodes.contains_key(id),
        ensures
            res == self@.nodes[id].writable(),
    {
        match self.map.get(&id) {
            Some(node) => node.can_write(),
            None => vstd::pervasive::unreached(),
        }
    }

    /// The configured name of the live node `id`.
    pub fn name_of(&self, id: Id) -> (res: String)
        requires
            self@.nodes.contains_key(id),
        ensures
            res@ == self@.nodes[id].name,
    {
        match self.map.get(&id) {
            Some(node) => node.get_name(),
            None => vstd::pervasive::unreached(),
        }
    }

    /// The display name of the live node `id`.
    pub fn display_name_of(&self, id: Id) -> (res: String)
        requires
            self@.nodes.contains_key(id),
        ensures
            res@ == self@.nodes[id].display_name(),
    {
        match self.map.get(&id) {
            Some(node) => node.get_display_name(),
            None => vstd::pervasive::unreached(),
        }
    }

    /// The outputs of the live, readable node `id`.
    pub fn outputs_of(&self, id: Id) -> (res: Vec<Id>)
        requires
            self.wf(),
            self@.nodes.contains_key(id),
            self@.nodes[id].readable(),
        ensures
            res@ == self@.nodes[id].outputs,
    {
        match self.map.get(&id) {
            Some(node) => vstd::slice::slice_to_vec(node.list_outputs()),
            None => vstd::pervasive::unreached(),
        }
    }

    /// Renames the live node `id`.
    pub fn set_name(&mut self, id: Id, name: &str)
        requires
            old(self).wf(),
            old(self)@.nodes.contains_key(id),
        ensures
            final(self).wf(),
            final(self)@ == old(self)@.updated(id, old(self)@.nodes[id].renamed(name@)),
    {
        let mut node = self.take(id);
        node.set_name(name);
        self.put(id, node);
        proof {
            Self::lemma_replaced(old(self), self, id, node);
        }
    }

    /// Adds `dst` to the outputs of the live, readable node `src`, unless
    /// it is listed there.
    pub fn add_output(&mut self, src: Id, dst: Id)
        requires
            old(self).wf(),
            old(self)@.nodes.contains_key(src),
            old(self)@.nodes[src].readable(),
        ensures
            final(self).wf(),
            final(self)@ == old(self)@.updated(src, old(self)@.nodes[src].connected(dst)),
    {
        let mut node = self.take(src);
        node.add_output(dst);
        self.put(src, node);
        proof {
            Self::lemma_replaced(old(self), self, src, node);
        }
    }

    /// Takes `dst` out of the outputs of the live, readable node `src`, if
    /// it is listed there.
    pub fn rem_output(&mut self, src: Id, dst: Id)
        requires
            old(self).wf(),
            old(self)@.nodes.contains_key(src),
            old(self)@.nodes[src].readable(),
        ensures
            final(self).wf(),
            final(self)@ == old(self)@.updated(src, old(self)@.nodes[src].disconnected(dst)),
    {
        let mut node = self.take(src);
        node.rem_output(dst);
        self.put(src, node);
        proof {
            Self::lemma_replaced(old(self), self, src, node);
        }
    }

    /// Configures the live node `id` with a command of its kind.
    pub fn configure(&mut self, id: Id, command: &[String]) -> (res: CfgReply)
        requires
            old(self).wf(),
            old(self)@.nodes.contains_key(id),
        ensures
            final(self).wf(),
            res == old(self)@.nodes[id].cfg_reply(texts(command@)),
            final(self)@ == old(self)@.updated(
                id,
                old(self)@.nodes[id].configured(texts(command@)),
            ),
    {
        let mut node = self.take(id);
        let res = node.cfg(command);
        self.put(id, node);
        proof {
            Self::lemma_replaced(old(self), self, id, node);
        }
        res
    }

    /// Hands a raw event from the transport to the node `id`. A live input
    /// buffers what classification accepts; nothing else changes anything.
    pub fn deliver(&mut self, id: Id, ts: u64, bytes: &[u8])
        requires
            old(self).wf(),
            bytes@.len() > 0,
        ensures
            final(self).wf(),
            final(self)@ == if old(self)@.nodes.contains_key(id) {
                old(self)@.updated(id, old(self)@.nodes[id].after_event(ts, bytes@))
            } else {
                old(self)@
            },
    {
        if self.map.contains_key(&id) {
            let mut node = self.take(id);
            node.receive(ts, bytes);
            self.put(id, node);
            proof {
                Self::lemma_replaced(old(self), self, id, node);
            }
        }
    }

    /// Hands out the encoded messages that wait in the node `id` for the
    /// transport, in the order they were written. Only a live output has
    /// any.
    pub fn take_outgoing(&mut self, id: Id) -> (res: Vec<Vec<u8>>)
        requires
            old(self).wf(),
        ensures
            final(self).wf(),
            payloads(res@) == if old(self)@.nodes.contains_key(id) {
                old(self)@.nodes[id].outbox
            } else {
                Seq::empty()
            },
            final(self)@ == if old(self)@.nodes.contains_key(id) {
                old(self)@.updated(id, old(self)@.nodes[id].after_flush())
            } else {
                old(self)@
            },
    {
        if self.map.contains_key(&id) {
            let mut node = self.take(id);
            let res = node.take_outgoing();
            self.put(id, node);
            proof {
                Self::lemma_replaced(old(self), self, id, node);
            }
            res
        } else {
            let res: Vec<Vec<u8>> = Vec::new();
            assert(payloads(res@) =~= Seq::empty());
            res
        }
    }

    /// The identifiers of the live nodes, in ascending order.
    pub fn live_ids(&self) -> (res: Vec<Id>)
        requires
            self.wf(),
        ensures
            res@ == self@.live_ids(),
            forall|i: int| 0 <= i < res@.len() ==> self@.nodes.contains_key(#[trigger] res@[i]),
    {
        let mut res: Vec<Id> = Vec::new();
        let mut i: Id = 0;
        while i < self.id_ctr
            invariant
                i <= self.id_ctr,
                res@ == self@.ids_below(i as nat),
            decreases self.id_ctr - i,
        {
            if self.map.contains_key(&i) {
                res.push(i);
            }
            i += 1;
        }
        proof {
            lemma_ids_below(self@, self.id_ctr as nat);
        }
        res
    }

    /// The display names of the live nodes, in the order of their
    /// identifiers.
    pub fn display_names(&self) -> (res: Vec<String>)
        requires
            self.wf(),
        ensures
            texts(res@) == self@.display_names(),
    {
        let ids = self.live_ids();
        let mut names: Vec<String> = Vec::new();
        let mut i: usize = 0;
        while i < ids.len()
            invariant
                i <= ids@.len(),
                ids@ == self@.live_ids(),
                forall|k: int| 0 <= k < ids@.len() ==> self@.nodes.contains_key(#[trigger] ids@[k]),
                names@.len() == i,
                forall|k: int|
                    0 <= k < i ==> (#[trigger] names@[k])@ == self@.nodes[ids@[k]].display_name(),
            decreases ids@.len() - i,
        {
            let name = self.display_name_of(ids[i]);
            names.push(name);
            i += 1;
        }
        assert(texts(names@) =~= self@.display_names());
        names
    }

    /// Finds the node that a token of a command names: the live node with
    /// that identifier if the token is the number of one, or else the node
    /// whose display name the token abbreviates. `None` if the token names
    /// no node, or abbreviates the names of several.
    pub fn find_by_id_or_name(&self, needle: &str) -> (res: Option<Id>)
        requires
            self.wf(),
        ensures
            res == self@.resolve(needle@),
            res matches Some(id) ==> self@.nodes.contains_key(id),
    {
        proof {
            lemma_resolve_is_live(self@, needle@);
        }
        if let Some(n) = parse_unsigned(needle, Id::MAX as u64) {
            if self.map.contains_key(&(n as Id)) {
                return Some(n as Id);
            }
        }
        let ids = self.live_ids();
        let names = self.display_names();
        let mut refs: Vec<&str> = Vec::new();
        let mut i: usize = 0;
        while i < names.len()
            invariant
                i <= names@.len(),
                refs@.len() == i,
                forall|k: int| 0 <= k < i ==> (#[trigger] refs@[k])@ == names@[k]@,
            decreases names@.len() - i,
        {
            refs.push(names[i].as_str());
            i += 1;
        }
        assert(words(refs@) =~= texts(names@));
        match shortened_keyword_match(needle, refs.as_slice()) {
            Some(idx) => Some(ids[idx]),
            None => None,
        }
    }

    /// Reads every readable node at the second `now`, in the order of the
    /// identifiers, and keeps each batch that is not empty with the
    /// outputs of its source.
    fn drain(&mut self, now: u64) -> (batches: Vec<Option<Batch>>)
        requires
            old(self).wf(),
        ensures
            final(self).wf(),
            final(self)@ == (Graph { nodes: old(self)@.drained(now), ..old(self)@ }),
            batches@.len() == old(self)@.next,
            forall|k: int|
                0 <= k < batches@.len() ==> match #[trigger] batches@[k] {
                    Some(b) => old(self)@.sends(k as Id, now) && b.outputs@ == old(
                        self,
                    )@.nodes[k as Id].outputs && models(b.messages@) == old(
                        self,
                    )@.nodes[k as Id].read_batch(now),
                    None => !old(self)@.sends(k as Id, now),
                },
    {
        let mut batches: Vec<Option<Batch>> = Vec::new();
        let mut id: Id = 0;
        assert(self@.nodes =~= old(self)@.drained_below(now, 0));
        while id < self.id_ctr
            invariant
                self.wf(),
                old(self).wf(),
                id <= self.id_ctr,
                self@.next == old(self)@.next,
                self@.free == old(self)@.free,
                self@.nodes == old(self)@.drained_below(now, id as nat),
                batches@.len() == id,
                forall|k: int|
                    0 <= k < batches@.len() ==> match #[trigger] batches@[k] {
                        Some(b) => old(self)@.sends(k as Id, now) && b.outputs@ == old(
                            self,
                        )@.nodes[k as Id].outputs && models(b.messages@) == old(
                            self,
                        )@.nodes[k as Id].read_batch(now),
                        None => !old(self)@.sends(k as Id, now),
                    },
            decreases self.id_ctr - id,
        {
            let ghost before = *self;
            let mut batch: Option<Batch> = None;
            if self.map.contains_key(&id) {
                proof {
                    assert(before@.nodes.contains_key(id));
                    assert(old(self)@.nodes.contains_key(id));
                    assert(before@.nodes[id] == old(self)@.nodes[id]);
                }
                let mut node = self.take(id);
                assert(node.model() == old(self)@.nodes[id]);
                if node.can_read() {
                    let messages = node.read(now);
                    if messages.len() > 0 {
                        let outputs = vstd::slice::slice_to_vec(node.list_outputs());
                        batch = Some(Batch { outputs, messages });
                    }
                }
                self.put(id, node);
                proof {
                    Self::lemma_replaced(&before, self, id, node);
                }
            }
            else {
                proof {
                    assert(!before@.nodes.contains_key(id));
                    assert(old(self)@.drained_below(now, id as nat).contains_key(id) == old(
                        self,
                    )@.nodes.contains_key(id));
                }
            }
            batches.push(batch);
            assert(self@.nodes =~= old(self)@.drained_below(now, (id + 1) as nat));
            id += 1;
        }
        assert(self@.nodes =~= old(self)@.drained(now));
        batches
    }

    /// Writes one batch to each of `outputs` in turn. An output that names
    /// no live node, or a node that cannot be written to, is passed over.
    fn forward(&mut self, outputs: &Vec<Id>, messages: &Vec<MidiMessage>)
        requires
            old(self).wf(),
        ensures
            final(self).wf(),
            final(self)@ == (Graph {
                nodes: deliver_to(old(self)@.nodes, outputs@, models(messages@)),
                ..old(self)@
            }),
    {
        let mut j: usize = 0;
        assert(outputs@.take(0) =~= Seq::empty());
        while j < outputs.len()
            invariant
                self.wf(),
                j <= outputs@.len(),
                self@.next == old(self)@.next,
                self@.free == old(self)@.free,
                self@.nodes == deliver_to(
                    old(self)@.nodes,
                    outputs@.take(j as int),
                    models(messages@),
                ),
            decreases outputs@.len() - j,
        {
            let ghost before = *self;
            let o = outputs[j];
            assert(outputs@.take(j + 1).drop_last() =~= outputs@.take(j as int));
            if self.map.contains_key(&o) {
                let mut dest = self.take(o);
                if dest.can_write() {
                    dest.write(messages.as_slice());
                }
                self.put(o, dest);
                proof {
                    Self::lemma_replaced(&before, self, o, dest);
                    assert(self@.nodes =~= deliver_to(
                        old(self)@.nodes,
                        outputs@.take(j + 1),
                        models(messages@),
                    ));
                }
            }
            j += 1;
        }
        assert(outputs@.take(j as int) =~= outputs@);
    }

    /// Runs one dispatch tick at the second `now` of the clock.
    ///
    /// Every node that can be read from is read first, in the order of the
    /// identifiers. Then each batch that is not empty is written to every
    /// output of its source that names a live node which can be written
    /// to, in the order of the sources and of their outputs. What a node
    /// receives in a tick is therefore read from it in the next tick at
    /// the earliest, and an output that names no live node is passed over.
    pub fn update_map(&mut self, now: u64)
        requires
            old(self).wf(),
        ensures
            final(self).wf(),
            final(self)@ == old(self)@.tick(now),
    {
        let batches = self.drain(now);
        let mut n: usize = 0;
        while n < batches.len()
            invariant
                self.wf(),
                n <= batches@.len(),
                batches@.len() == old(self)@.next,
                self@.next == old(self)@.next,
                self@.free == old(self)@.free,
                self@.nodes == old(self)@.dispatched(now, n as nat),
                forall|k: int|
                    0 <= k < batches@.len() ==> match #[trigger] batches@[k] {
                        Some(b) => old(self)@.sends(k as Id, now) && b.outputs@ == old(
                            self,
                        )@.nodes[k as Id].outputs && models(b.messages@) == old(
                            self,
                        )@.nodes[k as Id].read_batch(now),
                        None => !old(self)@.sends(k as Id, now),
                    },
            decreases batches@.len() - n,
        {
            match &batches[n] {
                Some(batch) => {
                    self.forward(&batch.outputs, &batch.messages);
                },
                None => {},
            }
            n += 1;
        }
    }
}

} // verus!
