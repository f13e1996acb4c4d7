//! The root context and the reference-counted nodes that it owns.
use vstd::prelude::*;
use crate::dispatch::{DispatchTable, Scope};
use crate::graph::{
    DestroyCall, DeviceContext, Node, VulkanContext, destroy_calls, destroy_plan, teardown_calls,
    teardown_plan,
};
use crate::history::{
    Fired, events_of, lemma_events_absent, lemma_events_concat, lemma_events_tag_node,
    lemma_events_tag_root, names_below, node_events_only, tag_node, tag_root,
};

verus! {

/// Why the graph refused an operation.
#[derive(Clone, Copy, Debug, PartialEq, Eq, Structural)]
pub enum GraphError {
    /// The reference names no node of this graph.
    UnknownNode,
    /// The node's destroy calls have already been handed out.
    Destroyed,
    /// The application has released its handle to the root.
    RootReleased,
    /// A counter would pass the largest `usize`.
    Exhausted,
    /// The root already has a device.
    DeviceAttached,
    /// The root already has a surface.
    SurfaceAttached,
    /// A dispatch table resolved for another instance or device.
    WrongScope,
}

/// One owning reference to a node. It is not `Clone`: a second reference
/// comes from `Vulkan::retain`, and each one is given back by
/// `Vulkan::release`.
#[derive(Debug)]
pub struct NodeRef {
    id: usize,
}

impl View for NodeRef {
    type V = nat;

    closed spec fn view(&self) -> nat {
        self.id as nat
    }
}

impl NodeRef {
    /// The index of the node in its graph.
    pub fn id(&self) -> (r: usize)
        ensures
            r == self@,
    {
        self.id
    }
}

/// How many of `refs` are above zero: the number of live nodes.
pub open spec fn live_count(refs: Seq<nat>) -> nat
    decreases refs.len(),
{
    if refs.len() == 0 {
        0
    } else {
        live_count(refs.drop_last()) + if refs.last() > 0 {
            1nat
        } else {
            0nat
        }
    }
}

pub proof fn lemma_live_update(refs: Seq<nat>, i: int, v: nat)
    requires
        0 <= i < refs.len(),
    ensures
        live_count(refs.update(i, v)) + (if refs[i] > 0 {
            1nat
        } else {
            0nat
        }) == live_count(refs) + (if v > 0 {
            1nat
        } else {
            0nat
        }),
    decreases refs.len(),
{
    let u = refs.update(i, v);
    if i == refs.len() - 1 {
        assert(u.drop_last() =~= refs.drop_last());
    } else {
        assert(u.drop_last() =~= refs.drop_last().update(i, v));
        lemma_live_update(refs.drop_last(), i, v);
    }
}

pub proof fn lemma_live_bound(refs: Seq<nat>)
    ensures
        live_count(refs) <= refs.len(),
    decreases refs.len(),
{
    if refs.len() > 0 {
        lemma_live_bound(refs.drop_last());
    }
}

pub proof fn lemma_live_push(refs: Seq<nat>, v: nat)
    ensures
        live_count(refs.push(v)) == live_count(refs) + if v > 0 {
            1nat
        } else {
            0nat
        },
{
    assert(refs.push(v).drop_last() =~= refs);
}

/// With no live node, every count is zero.
pub proof fn lemma_live_zero(refs: Seq<nat>)
    requires
        live_count(refs) == 0,
    ensures
        forall|i: int| 0 <= i < refs.len() ==> #[trigger] refs[i] == 0,
    decreases refs.len(),
{
    if refs.len() > 0 {
        lemma_live_zero(refs.drop_last());
        assert forall|i: int| 0 <= i < refs.len() implies #[trigger] refs[i] == 0 by {
            if i < refs.len() - 1 {
                assert(refs[i] == refs.drop_last()[i]);
            }
        }
    }
}

/// The graph as a mathematical value.
pub struct GraphView {
    pub context: VulkanContext,
    pub nodes: Seq<Node>,
    pub refs: Seq<nat>,
    pub root_held: bool,
    pub torn_down: bool,
    pub fired: Seq<Fired>,
}

impl GraphView {
    /// The graph's invariant. Each node's destroy calls are in the log
    /// exactly once if its count is zero and not at all otherwise. The root
    /// is torn down exactly when the application has released it and no node
    /// is live. Once torn down, the log ends with the root's teardown and
    /// holds nothing but node calls before it.
    pub open spec fn wf(self) -> bool {
        &&& self.refs.len() == self.nodes.len()
        &&& self.nodes.len() <= usize::MAX
        &&& self.torn_down <==> (!self.root_held && live_count(self.refs) == 0)
        &&& names_below(self.fired, self.nodes.len() as int)
        &&& forall|i: int|
            0 <= i < self.nodes.len() ==> #[trigger] events_of(self.fired, i) == if self.refs[i]
                == 0 {
                destroy_plan(self.nodes[i])
            } else {
                Seq::empty()
            }
        &&& if self.torn_down {
            self.root_last()
        } else {
            node_events_only(self.fired)
        }
    }

    /// The log ends with the root's teardown, and only node calls come
    /// before it.
    pub open spec fn root_last(self) -> bool {
        let plan = teardown_plan(self.context);
        let k = self.fired.len() - plan.len();
        &&& k >= 0
        &&& node_events_only(self.fired.take(k))
        &&& self.fired.skip(k) == tag_root(plan)
    }

    pub open spec fn is_live(self, i: int) -> bool {
        0 <= i < self.nodes.len() && self.refs[i] > 0
    }

    /// A node can be added: the application still holds the root, and the
    /// graph has room.
    pub open spec fn can_create(self) -> bool {
        self.root_held && self.nodes.len() < usize::MAX
    }

    /// Why a node cannot be added.
    pub open spec fn create_error(self) -> GraphError {
        if !self.root_held {
            GraphError::RootReleased
        } else {
            GraphError::Exhausted
        }
    }

    /// Why node `i` cannot be released.
    pub open spec fn release_error(self, i: int) -> GraphError {
        if 0 <= i < self.nodes.len() {
            GraphError::Destroyed
        } else {
            GraphError::UnknownNode
        }
    }

    pub open spec fn created(self, n: Node) -> GraphView {
        GraphView { nodes: self.nodes.push(n), refs: self.refs.push(1), ..self }
    }

    pub open spec fn retained(self, i: int) -> GraphView {
        GraphView { refs: self.refs.update(i, self.refs[i] + 1), ..self }
    }

    /// Releasing this last reference to node `i` also tears the root down.
    pub open spec fn release_ends_root(self, i: int) -> bool {
        self.refs[i] == 1 && !self.root_held && live_count(self.refs.update(i, 0)) == 0
    }

    pub open spec fn release_calls(self, i: int) -> Seq<DestroyCall> {
        if self.refs[i] > 1 {
            Seq::empty()
        } else if self.release_ends_root(i) {
            destroy_plan(self.nodes[i]) + teardown_plan(self.context)
        } else {
            destroy_plan(self.nodes[i])
        }
    }

    pub open spec fn released(self, i: int) -> GraphView {
        let refs = self.refs.update(i, (self.refs[i] - 1) as nat);
        if self.refs[i] > 1 {
            GraphView { refs, ..self }
        } else {
            let fired = self.fired + tag_node(destroy_plan(self.nodes[i]), i);
            if self.release_ends_root(i) {
                GraphView {
                    refs,
                    torn_down: true,
                    fired: fired + tag_root(teardown_plan(self.context)),
                    ..self
                }
            } else {
                GraphView { refs, fired, ..self }
            }
        }
    }

    pub open spec fn root_release_calls(self) -> Seq<DestroyCall> {
        if live_count(self.refs) == 0 {
            teardown_plan(self.context)
        } else {
            Seq::empty()
        }
    }

    pub open spec fn root_released(self) -> GraphView {
        if live_count(self.refs) == 0 {
            GraphView {
                root_held: false,
                torn_down: true,
                fired: self.fired + tag_root(teardown_plan(self.context)),
                ..self
            }
        } else {
            GraphView { root_held: false, ..self }
        }
    }
}

#[derive(Clone, Copy)]
struct Slot {
    node: Node,
    refs: usize,
}

/// The root context: the driver connection, and the graph of the objects
/// created from it.
pub struct Vulkan {
    context: VulkanContext,
    instance_table: DispatchTable,
    device_table: Option<DispatchTable>,
    slots: Vec<Slot>,
    live: usize,
    root_held: bool,
    torn_down: bool,
    fired: Ghost<Seq<Fired>>,
}

impl View for Vulkan {
    type V = GraphView;

    closed spec fn view(&self) -> GraphView {
        GraphView {
            context: self.context,
            nodes: self.slots@.map_values(|s: Slot| s.node),
            refs: self.slots@.map_values(|s: Slot| s.refs as nat),
            root_held: self.root_held,
            torn_down: self.torn_down,
            fired: self.fired@,
        }
    }
}

impl Vulkan {
    pub closed spec fn wf(&self) -> bool {
        &&& self@.wf()
        &&& self.live as nat == live_count(self@.refs)
        &&& self.instance_table@.scope == Scope::Instance(self.context.instance)
        &&& self.instance_table@.names.len() == self.instance_table@.addrs.len()
        &&& match (self.context.device, self.device_table) {
            (Some(d), Some(t)) => t@.scope == Scope::Device(d.device) && t@.names.len()
                == t@.addrs.len(),
            (None, None) => true,
            _ => false,
        }
    }

    /// A well-formed root has a well-formed view.
    pub proof fn lemma_wf(&self)
        requires
            self.wf(),
        ensures
            self@.wf(),
    {
    }

    /// A root over a loaded library, a created instance and the instance's
    /// dispatch table, with no node, surface or device yet. Refused when the
    /// table was resolved for anything but this instance.
    pub fn new(library: u64, instance: u64, table: DispatchTable) -> (res: Result<Vulkan, GraphError>)
        requires
            table@.names.len() == table@.addrs.len(),
        ensures
            match res {
                Ok(r) => {
                    &&& table@.scope == Scope::Instance(instance)
                    &&& r.wf()
                    &&& r@ == (GraphView {
                        context: VulkanContext { library, instance, surface: None, device: None },
                        nodes: Seq::empty(),
                        refs: Seq::empty(),
                        root_held: true,
                        torn_down: false,
                        fired: Seq::empty(),
                    })
                },
                Err(e) => table@.scope != Scope::Instance(instance) && e == GraphError::WrongScope,
            },
    {
        match table.scope() {
            Scope::Instance(h) => {
                if h != instance {
                    return Err(GraphError::WrongScope);
                }
            },
            Scope::Device(_) => {
                return Err(GraphError::WrongScope);
            },
        }
        let r = Vulkan {
            context: VulkanContext { library, instance, surface: None, device: None },
            instance_table: table,
            device_table: None,
            slots: Vec::new(),
            live: 0,
            root_held: true,
            torn_down: false,
            fired: Ghost(Seq::empty()),
        };
        proof {
            assert(r@.nodes =~= Seq::empty());
            assert(r@.refs =~= Seq::empty());
        }
        Ok(r)
    }

    /// The instance's dispatch table.
    pub fn instance_table(&self) -> (r: &DispatchTable)
        requires
            self.wf(),
        ensures
            r@.scope == Scope::Instance(self@.context.instance),
            r@.names.len() == r@.addrs.len(),
    {
        &self.instance_table
    }

    /// The device's dispatch table, once a device is attached.
    pub fn device_table(&self) -> (r: Option<&DispatchTable>)
        requires
            self.wf(),
        ensures
            match r {
                Some(t) => self@.context.device is Some && t@.scope == Scope::Device(
                    self@.context.device->0.device,
                ) && t@.names.len() == t@.addrs.len(),
                None => self@.context.device is None,
            },
    {
        match &self.device_table {
            Some(t) => Some(t),
            None => None,
        }
    }

    /// The root's own handles.
    pub fn context(&self) -> (r: VulkanContext)
        ensures
            r == self@.context,
    {
        self.context
    }

    /// Whether images are sampled: false until a device is attached.
    pub fn sampled(&self) -> (r: bool)
        ensures
            r == match self@.context.device {
                Some(d) => d.sampled,
                None => false,
            },
    {
        match self.context.device {
            Some(d) => d.sampled,
            None => false,
        }
    }

    /// The number of nodes that are still live.
    pub fn live(&self) -> (r: usize)
        requires
            self.wf(),
        ensures
            r == live_count(self@.refs),
    {
        self.live
    }

    /// Whether the root's teardown calls have been handed out.
    pub fn is_torn_down(&self) -> (r: bool)
        ensures
            r == self@.torn_down,
    {
        self.torn_down
    }

    /// Adds a node with one reference, held by the caller. Refused once the
    /// application has released the root.
    pub fn create(&mut self, node: Node) -> (res: Result<NodeRef, GraphError>)
        requires
            old(self).wf(),
        ensures
            final(self).wf(),
            match res {
                Ok(r) => {
                    &&& old(self)@.root_held
                    &&& old(self)@.nodes.len() < usize::MAX
                    &&& r@ == old(self)@.nodes.len()
                    &&& final(self)@ == old(self)@.created(node)
                },
                Err(e) => {
                    &&& final(self)@ == old(self)@
                    &&& !old(self)@.root_held ==> e == GraphError::RootReleased
                    &&& old(self)@.root_held ==> e == GraphError::Exhausted
                        && old(self)@.nodes.len() == usize::MAX
                },
            },
    {
        if !self.root_held {
            return Err(GraphError::RootReleased);
        }
        if self.slots.len() == usize::MAX {
            return Err(GraphError::Exhausted);
        }
        let ghost old_view = self@;
        proof {
            lemma_live_bound(old_view.refs);
        }
        let id = self.slots.len();
        self.slots.push(Slot { node, refs: 1 });
        self.live = self.live + 1;
        proof {
            let n = self@;
            assert(n.nodes =~= old_view.nodes.push(node));
            assert(n.refs =~= old_view.refs.push(1));
            lemma_live_push(old_view.refs, 1);
            assert forall|i: int| 0 <= i < n.nodes.len() implies #[trigger] events_of(n.fired, i)
                == if n.refs[i] == 0 {
                destroy_plan(n.nodes[i])
            } else {
                Seq::empty()
            } by {
                if i == id {
                    lemma_events_absent(n.fired, i);
                } else {
                    assert(events_of(old_view.fired, i) == if old_view.refs[i] == 0 {
                        destroy_plan(old_view.nodes[i])
                    } else {
                        Seq::empty()
                    });
                }
            }
            assert(n == old_view.created(node));
        }
        Ok(NodeRef { id })
    }

    /// The node behind a reference, while it is live.
    pub fn handles(&self, r: &NodeRef) -> (res: Result<Node, GraphError>)
        requires
            self.wf(),
        ensures
            match res {
                Ok(n) => self@.is_live(r@ as int) && n == self@.nodes[r@ as int],
                Err(e) => !self@.is_live(r@ as int) && e == if r@ < self@.nodes.len() {
                    GraphError::Destroyed
                } else {
                    GraphError::UnknownNode
                },
            },
    {
        if r.id >= self.slots.len() {
            return Err(GraphError::UnknownNode);
        }
        let slot = self.slots[r.id];
        if slot.refs == 0 {
            return Err(GraphError::Destroyed);
        }
        Ok(slot.node)
    }

    /// A second reference to a live node.
    pub fn retain(&mut self, r: &NodeRef) -> (res: Result<NodeRef, GraphError>)
        requires
            old(self).wf(),
        ensures
            final(self).wf(),
            match res {
                Ok(s) => {
                    &&& old(self)@.is_live(r@ as int)
                    &&& old(self)@.refs[r@ as int] < usize::MAX
                    &&& s@ == r@
                    &&& final(self)@ == old(self)@.retained(r@ as int)
                },
                Err(e) => {
                    &&& !(old(self)@.is_live(r@ as int) && old(self)@.refs[r@ as int] < usize::MAX)
                    &&& final(self)@ == old(self)@
                    &&& e == if r@ >= old(self)@.nodes.len() {
                        GraphError::UnknownNode
                    } else if old(self)@.refs[r@ as int] == 0 {
                        GraphError::Destroyed
                    } else {
                        GraphError::Exhausted
                    }
                },
            },
    {
        let id = r.id;
        if id >= self.slots.len() {
            return Err(GraphError::UnknownNode);
        }
        let slot = self.slots[id];
        if slot.refs == 0 {
            return Err(GraphError::Destroyed);
        }
        if slot.refs == usize::MAX {
            return Err(GraphError::Exhausted);
        }
        let ghost old_view = self@;
        self.slots.set(id, Slot { node: slot.node, refs: slot.refs + 1 });
        proof {
            let n = self@;
            assert(n.nodes =~= old_view.nodes);
            assert(n.refs =~= old_view.refs.update(id as int, old_view.refs[id as int] + 1));
            lemma_live_update(old_view.refs, id as int, old_view.refs[id as int] + 1);
            assert forall|i: int| 0 <= i < n.nodes.len() implies #[trigger] events_of(n.fired, i)
                == if n.refs[i] == 0 {
                destroy_plan(n.nodes[i])
            } else {
                Seq::empty()
            } by {
                assert(events_of(old_view.fired, i) == if old_view.refs[i] == 0 {
                    destroy_plan(old_view.nodes[i])
                } else {
                    Seq::empty()
                });
            }
            assert(n == old_view.retained(id as int));
        }
        Ok(NodeRef { id })
    }

    /// Gives back one reference. The last one of a node hands out the
    /// node's destroy calls; if that was the last live node and the root has
    /// been released, the root's teardown calls follow.
    pub fn release(&mut self, r: NodeRef) -> (res: Result<Vec<DestroyCall>, GraphError>)
        requires
            old(self).wf(),
        ensures
            final(self).wf(),
            match res {
                Ok(calls) => {
                    &&& old(self)@.is_live(r@ as int)
                    &&& final(self)@ == old(self)@.released(r@ as int)
                    &&& calls@ == old(self)@.release_calls(r@ as int)
                },
                Err(e) => {
                    &&& !old(self)@.is_live(r@ as int)
                    &&& final(self)@ == old(self)@
                    &&& e == if r@ < old(self)@.nodes.len() {
                        GraphError::Destroyed
                    } else {
                        GraphError::UnknownNode
                    }
                },
            },
    {
        let id = r.id;
        if id >= self.slots.len() {
            return Err(GraphError::UnknownNode);
        }
        let slot = self.slots[id];
        if slot.refs == 0 {
            return Err(GraphError::Destroyed);
        }
        let ghost old_view = self@;
        let ghost i = id as int;
        proof {
            lemma_live_update(old_view.refs, i, (old_view.refs[i] - 1) as nat);
        }
        self.slots.set(id, Slot { node: slot.node, refs: slot.refs - 1 });
        proof {
            assert(self@.nodes =~= old_view.nodes);
            assert(self@.refs =~= old_view.refs.update(i, (old_view.refs[i] - 1) as nat));
        }
        if slot.refs > 1 {
            proof {
                let n = self@;
                assert forall|j: int| 0 <= j < n.nodes.len() implies #[trigger] events_of(
                    n.fired,
                    j,
                ) == if n.refs[j] == 0 {
                    destroy_plan(n.nodes[j])
                } else {
                    Seq::empty()
                } by {
                    assert(events_of(old_view.fired, j) == if old_view.refs[j] == 0 {
                        destroy_plan(old_view.nodes[j])
                    } else {
                        Seq::empty()
                    });
                }
                assert(n == old_view.released(i));
            }
            return Ok(Vec::new());
        }
        self.live = self.live - 1;
        let mut calls = destroy_calls(&slot.node);
        let ghost plan = destroy_plan(slot.node);
        self.fired = Ghost(self.fired@ + tag_node(plan, i));
        proof {
            let n = self@;
            assert forall|j: int| 0 <= j < n.nodes.len() implies #[trigger] events_of(n.fired, j)
                == if n.refs[j] == 0 {
                destroy_plan(n.nodes[j])
            } else {
                Seq::empty()
            } by {
                lemma_events_concat(old_view.fired, tag_node(plan, i), j);
                lemma_events_tag_node(plan, i, j);
                assert(events_of(old_view.fired, j) == if old_view.refs[j] == 0 {
                    destroy_plan(old_view.nodes[j])
                } else {
                    Seq::empty()
                });
                if j == i {
                    assert(events_of(old_view.fired, j) + plan =~= plan);
                } else {
                    assert(events_of(old_view.fired, j) + Seq::<DestroyCall>::empty()
                        =~= events_of(old_view.fired, j));
                }
            }
            assert forall|j: int| 0 <= j < n.fired.len() implies match #[trigger] n.fired[j] {
                Fired::Node(id, _) => id < n.nodes.len(),
                Fired::Root(_) => true,
            } by {
                if j >= old_view.fired.len() {
                    assert(n.fired[j] == Fired::Node(i as usize, plan[j - old_view.fired.len()]));
                }
            }
            assert forall|j: int| 0 <= j < n.fired.len() implies (#[trigger] n.fired[j]) is Node by {
                if j >= old_view.fired.len() {
                    assert(n.fired[j] == Fired::Node(i as usize, plan[j - old_view.fired.len()]));
                }
            }
        }
        if !self.root_held && self.live == 0 {
            let ghost mid = self@;
            let mut tail = teardown_calls(&self.context);
            calls.append(&mut tail);
            let ghost root_plan = teardown_plan(self.context);
            self.fired = Ghost(self.fired@ + tag_root(root_plan));
            self.torn_down = true;
            proof {
                let n = self@;
                assert forall|j: int| 0 <= j < n.nodes.len() implies #[trigger] events_of(
                    n.fired,
                    j,
                ) == if n.refs[j] == 0 {
                    destroy_plan(n.nodes[j])
                } else {
                    Seq::empty()
                } by {
                    lemma_events_concat(mid.fired, tag_root(root_plan), j);
                    lemma_events_tag_root(root_plan, j);
                    assert(events_of(mid.fired, j) + Seq::<DestroyCall>::empty() =~= events_of(
                        mid.fired,
                        j,
                    ));
                }
                assert forall|j: int| 0 <= j < n.fired.len() implies match #[trigger] n.fired[j] {
                    Fired::Node(id, _) => id < n.nodes.len(),
                    Fired::Root(_) => true,
                } by {
                    if j < mid.fired.len() {
                        assert(n.fired[j] == mid.fired[j]);
                    }
                }
                let k = n.fired.len() - root_plan.len();
                assert(n.fired.take(k) =~= mid.fired);
                assert(n.fired.skip(k) =~= tag_root(root_plan));
                assert(n == old_view.released(i));
            }
        } else {
            proof {
                assert(self@ == old_view.released(i));
            }
        }
        Ok(calls)
    }

    /// The application gives back its own handle to the root. With no live
    /// node left, the root's teardown calls are handed out at once; else they
    /// come with the release of the last node.
    pub fn release_root(&mut self) -> (res: Result<Vec<DestroyCall>, GraphError>)
        requires
            old(self).wf(),
        ensures
            final(self).wf(),
            match res {
                Ok(calls) => {
                    &&& old(self)@.root_held
                    &&& final(self)@ == old(self)@.root_released()
                    &&& calls@ == old(self)@.root_release_calls()
                },
                Err(e) => {
                    &&& !old(self)@.root_held
                    &&& final(self)@ == old(self)@
                    &&& e == GraphError::RootReleased
                },
            },
    {
        if !self.root_held {
            return Err(GraphError::RootReleased);
        }
        let ghost old_view = self@;
        self.root_held = false;
        if self.live == 0 {
            let calls = teardown_calls(&self.context);
            let ghost root_plan = teardown_plan(self.context);
            self.fired = Ghost(self.fired@ + tag_root(root_plan));
            self.torn_down = true;
            proof {
                let n = self@;
                assert forall|j: int| 0 <= j < n.nodes.len() implies #[trigger] events_of(
                    n.fired,
                    j,
                ) == if n.refs[j] == 0 {
                    destroy_plan(n.nodes[j])
                } else {
                    Seq::empty()
                } by {
                    lemma_events_concat(old_view.fired, tag_root(root_plan), j);
                    lemma_events_tag_root(root_plan, j);
                    assert(events_of(old_view.fired, j) + Seq::<DestroyCall>::empty()
                        =~= events_of(old_view.fired, j));
                }
                assert forall|j: int| 0 <= j < n.fired.len() implies match #[trigger] n.fired[j] {
                    Fired::Node(id, _) => id < n.nodes.len(),
                    Fired::Root(_) => true,
                } by {
                    if j < old_view.fired.len() {
                        assert(n.fired[j] == old_view.fired[j]);
                    }
                }
                let k = n.fired.len() - root_plan.len();
                assert(n.fired.take(k) =~= old_view.fired);
                assert(n.fired.skip(k) =~= tag_root(root_plan));
                assert(n == old_view.root_released());
            }
            Ok(calls)
        } else {
            proof {
                assert(self@ == old_view.root_released());
            }
            Ok(Vec::new())
        }
    }

    /// Records the logical device, the objects made with it and its
    /// dispatch table. Refused once the root is released, when a device is
    /// already attached, or when the table was resolved for another device.
    pub fn attach_device(&mut self, d: DeviceContext, table: DispatchTable) -> (res: Result<
        (),
        GraphError,
    >)
        requires
            old(self).wf(),
            table@.names.len() == table@.addrs.len(),
        ensures
            final(self).wf(),
            match res {
                Ok(()) => {
                    &&& old(self)@.root_held
                    &&& old(self)@.context.device is None
                    &&& table@.scope == Scope::Device(d.device)
                    &&& final(self)@ == (GraphView {
                        context: VulkanContext { device: Some(d), ..old(self)@.context },
                        ..old(self)@
                    })
                },
                Err(e) => {
                    &&& final(self)@ == old(self)@
                    &&& e == if !old(self)@.root_held {
                        GraphError::RootReleased
                    } else if old(self)@.context.device is Some {
                        GraphError::DeviceAttached
                    } else {
                        GraphError::WrongScope
                    }
                    &&& !old(self)@.root_held || old(self)@.context.device is Some
                        || table@.scope != Scope::Device(d.device)
                },
            },
    {
        if !self.root_held {
            return Err(GraphError::RootReleased);
        }
        if self.context.device.is_some() {
            return Err(GraphError::DeviceAttached);
        }
        if table.scope() != Scope::Device(d.device) {
            return Err(GraphError::WrongScope);
        }
        self.context.device = Some(d);
        self.device_table = Some(table);
        Ok(())
    }

    /// Records the window surface. Refused once the root is released or when
    /// a surface is already attached.
    pub fn set_surface(&mut self, surface: u64) -> (res: Result<(), GraphError>)
        requires
            old(self).wf(),
        ensures
            final(self).wf(),
            match res {
                Ok(()) => {
                    &&& old(self)@.root_held
                    &&& old(self)@.context.surface is None
                    &&& final(self)@ == (GraphView {
                        context: VulkanContext { surface: Some(surface), ..old(self)@.context },
                        ..old(self)@
                    })
                },
                Err(e) => {
                    &&& final(self)@ == old(self)@
                    &&& e == if !old(self)@.root_held {
                        GraphError::RootReleased
                    } else {
                        GraphError::SurfaceAttached
                    }
                    &&& !old(self)@.root_held || old(self)@.context.surface is Some
                },
            },
    {
        if !self.root_held {
            return Err(GraphError::RootReleased);
        }
        if self.context.surface.is_some() {
            return Err(GraphError::SurfaceAttached);
        }
        self.context.surface = Some(surface);
        Ok(())
    }
}


/// The graph after `n` releases of node `i`.
pub open spec fn release_times(g: GraphView, i: int, n: nat) -> GraphView
    decreases n,
{
    if n == 0 {
        g
    } else {
        release_times(g, i, (n - 1) as nat).released(i)
    }
}

proof fn lemma_release_times_quiet(g: GraphView, i: int, n: nat)
    requires
        g.wf(),
        g.is_live(i),
        n < g.refs[i],
    ensures
        release_times(g, i, n).fired == g.fired,
        release_times(g, i, n).nodes == g.nodes,
        release_times(g, i, n).context == g.context,
        release_times(g, i, n).root_held == g.root_held,
        release_times(g, i, n).refs == g.refs.update(i, (g.refs[i] - n) as nat),
    decreases n,
{
    if n > 0 {
        lemma_release_times_quiet(g, i, (n - 1) as nat);
        let h = release_times(g, i, (n - 1) as nat);
        assert(h.refs[i] == g.refs[i] - (n - 1));
        assert(h.refs.update(i, (h.refs[i] - 1) as nat) =~= g.refs.update(
            i,
            (g.refs[i] - n) as nat,
        ));
    } else {
        assert(g.refs.update(i, g.refs[i]) =~= g.refs);
    }
}

/// Destruction happens once. However many references a live node has,
/// releasing all but the last hands out no call, and releasing the last one
/// puts the node's destroy calls into the log exactly once; the node is then
/// no longer live, so any further release is refused.
pub proof fn lemma_destroyed_once(g: GraphView, i: int)
    requires
        g.wf(),
        g.is_live(i),
    ensures
        forall|n: nat|
            n < g.refs[i] ==> (#[trigger] release_times(g, i, n)).fired == g.fired
                && release_times(g, i, n).is_live(i),
        events_of(release_times(g, i, g.refs[i]).fired, i) == destroy_plan(g.nodes[i]),
        !release_times(g, i, g.refs[i]).is_live(i),
{
    let k = g.refs[i];
    assert forall|n: nat| n < k implies (#[trigger] release_times(g, i, n)).fired == g.fired
        && release_times(g, i, n).is_live(i) by {
        lemma_release_times_quiet(g, i, n);
    }
    let h = release_times(g, i, (k - 1) as nat);
    lemma_release_times_quiet(g, i, (k - 1) as nat);
    assert(h.refs[i] == 1);
    let plan = destroy_plan(g.nodes[i]);
    assert(events_of(g.fired, i) == Seq::<DestroyCall>::empty());
    lemma_events_concat(g.fired, tag_node(plan, i), i);
    lemma_events_tag_node(plan, i, i);
    assert(Seq::<DestroyCall>::empty() + plan =~= plan);
    if h.release_ends_root(i) {
        let f = g.fired + tag_node(plan, i);
        lemma_events_concat(f, tag_root(teardown_plan(g.context)), i);
        lemma_events_tag_root(teardown_plan(g.context), i);
        assert(plan + Seq::<DestroyCall>::empty() =~= plan);
    }
}

/// The root goes last. Once torn down, every node has been destroyed, all
/// node destroy calls come before the root's, and the log ends with the
/// root's teardown.
pub proof fn lemma_root_last(g: GraphView)
    requires
        g.wf(),
        g.torn_down,
    ensures
        ({
            let plan = teardown_plan(g.context);
            let k = g.fired.len() - plan.len();
            &&& k >= 0
            &&& g.fired.skip(k) == tag_root(plan)
            &&& forall|i: int|
                0 <= i < g.nodes.len() ==> g.refs[i] == 0 && #[trigger] events_of(g.fired.take(k), i)
                    == destroy_plan(g.nodes[i])
        }),
{
    let plan = teardown_plan(g.context);
    let k = g.fired.len() - plan.len();
    lemma_live_zero(g.refs);
    assert forall|i: int| 0 <= i < g.nodes.len() implies g.refs[i] == 0 && #[trigger] events_of(
        g.fired.take(k),
        i,
    ) == destroy_plan(g.nodes[i]) by {
        assert(g.fired.take(k) + g.fired.skip(k) =~= g.fired);
        lemma_events_concat(g.fired.take(k), g.fired.skip(k), i);
        lemma_events_tag_root(plan, i);
        assert(events_of(g.fired.take(k), i) + Seq::<DestroyCall>::empty() =~= events_of(
            g.fired.take(k),
            i,
        ));
    }
}

/// A root with a surface and a device tears down sampler, command pool,
/// surface, device, instance and library, in that order.
pub proof fn lemma_teardown_order(c: VulkanContext, d: DeviceContext, surface: u64)
    requires
        c.device == Some(d),
        c.surface == Some(surface),
    ensures
        teardown_plan(c) == seq![
            DestroyCall::DestroySampler(d.sampler),
            DestroyCall::DestroyCommandPool(d.command_pool),
            DestroyCall::DestroySurface(surface),
            DestroyCall::DestroyDevice(d.device),
            DestroyCall::DestroyInstance(c.instance),
            DestroyCall::UnloadLibrary(c.library),
        ],
{
    assert(teardown_plan(c) =~= seq![
        DestroyCall::DestroySampler(d.sampler),
        DestroyCall::DestroyCommandPool(d.command_pool),
        DestroyCall::DestroySurface(surface),
        DestroyCall::DestroyDevice(d.device),
        DestroyCall::DestroyInstance(c.instance),
        DestroyCall::UnloadLibrary(c.library),
    ]);
}

/// A composite node is destroyed dependent resource first: an image or a
/// buffer before its memory, a pipeline before its layouts.
pub proof fn lemma_composite_order(g: GraphView, i: int)
    requires
        g.wf(),
        0 <= i < g.nodes.len(),
        g.refs[i] == 0,
    ensures
        match g.nodes[i] {
            Node::Image { image, memory } => events_of(g.fired, i) == seq![
                DestroyCall::DestroyImage(image),
                DestroyCall::FreeMemory(memory),
            ],
            Node::Buffer { buffer, memory } => events_of(g.fired, i) == seq![
                DestroyCall::DestroyBuffer(buffer),
                DestroyCall::FreeMemory(memory),
            ],
            Node::Style { pipeline, pipeline_layout, descset_layout } => events_of(g.fired, i)
                == seq![
                DestroyCall::DestroyPipeline(pipeline),
                DestroyCall::DestroyPipelineLayout(pipeline_layout),
                DestroyCall::DestroyDescriptorSetLayout(descset_layout),
            ],
            _ => events_of(g.fired, i) == destroy_plan(g.nodes[i]),
        },
{
    assert(events_of(g.fired, i) == destroy_plan(g.nodes[i]));
}

} // verus!
