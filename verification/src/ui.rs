//! The user interface: a pool of nodes and the bus its messages travel over.

use vstd::prelude::*;
use vstd::pervasive::VecAdditionalExecFns;

use crate::message::{UiMessage, UiMessageView};
use crate::node::{with_handle_view, UiNode, UiNodeView};
use crate::pool::Handle;
use crate::style::Style;

verus! {

/// The slot's value as the pool's mathematical contents see it.
pub open spec fn opt_node_view(slot: Option<UiNode>) -> Option<UiNodeView> {
    match slot {
        Some(node) => Some(node@),
        None => None,
    }
}

/// How many slots of the pool are occupied.
pub open spec fn live_count(nodes: Seq<Option<UiNodeView>>) -> nat
    decreases nodes.len(),
{
    if nodes.len() == 0 {
        0
    } else {
        live_count(nodes.drop_last()) + (if nodes.last() is Some {
            1nat
        } else {
            0nat
        })
    }
}

/// Replacing a slot by `None` lowers the number of occupied slots by one when
/// the slot was occupied, and keeps it when it was free.
proof fn lemma_live_count_clear(nodes: Seq<Option<UiNodeView>>, i: int)
    requires
        0 <= i < nodes.len(),
    ensures
        nodes[i] is Some ==> live_count(nodes.update(i, None)) + 1 == live_count(nodes),
        nodes[i] is None ==> live_count(nodes.update(i, None)) == live_count(nodes),
    decreases nodes.len(),
{
    let cleared = nodes.update(i, None);
    if i == nodes.len() - 1 {
        assert(cleared.drop_last() =~= nodes.drop_last());
    } else {
        assert(cleared.drop_last() =~= nodes.drop_last().update(i, None));
        lemma_live_count_clear(nodes.drop_last(), i);
        assert(cleared.last() == nodes.last());
    }
}

/// One slot more at the front of the count: the occupied slots of the first
/// `i + 1` slots are those of the first `i`, plus slot `i` when occupied.
proof fn lemma_live_count_step(nodes: Seq<Option<UiNodeView>>, i: int)
    requires
        0 <= i < nodes.len(),
    ensures
        live_count(nodes.take(i + 1)) == live_count(nodes.take(i)) + (if nodes[i] is Some {
            1nat
        } else {
            0nat
        }),
{
    assert(nodes.take(i + 1).drop_last() =~= nodes.take(i));
    assert(nodes.take(i + 1).last() == nodes[i]);
}

/// Whether the pool ties `child` to `parent`: the slot of `parent` is
/// occupied, and its node lists `child` among its children.
pub open spec fn child_edge(nodes: Seq<Option<UiNodeView>>, parent: Handle, child: Handle) -> bool {
    parent.0 < nodes.len() && nodes[parent.0 as int] is Some
        && nodes[parent.0 as int]->Some_0.widget().children.contains(child)
}

/// Whether `to` can be reached from `from` over at most `k` child edges.
pub open spec fn reaches_in(
    nodes: Seq<Option<UiNodeView>>,
    from: Handle,
    to: Handle,
    k: nat,
) -> bool
    decreases k,
{
    from == to || (k > 0 && exists|mid: Handle|
        child_edge(nodes, from, mid) && reaches_in(nodes, mid, to, (k - 1) as nat))
}

/// Whether `to` can be reached from `from` by following child edges: `from`
/// itself, its children, their children, and so on.
pub open spec fn reaches(nodes: Seq<Option<UiNodeView>>, from: Handle, to: Handle) -> bool {
    exists|k: nat| reaches_in(nodes, from, to, k)
}

/// A bounded reach grows by one child edge at its end.
proof fn lemma_reaches_in_extend(
    nodes: Seq<Option<UiNodeView>>,
    from: Handle,
    mid: Handle,
    child: Handle,
    k: nat,
)
    requires
        reaches_in(nodes, from, mid, k),
        child_edge(nodes, mid, child),
    ensures
        reaches_in(nodes, from, child, k + 1),
    decreases k,
{
    if from == mid {
        assert(reaches_in(nodes, child, child, k));
        assert(child_edge(nodes, from, child) && reaches_in(nodes, child, child, k));
    } else {
        let m = choose|m: Handle|
            child_edge(nodes, from, m) && reaches_in(nodes, m, mid, (k - 1) as nat);
        lemma_reaches_in_extend(nodes, m, mid, child, (k - 1) as nat);
        assert(child_edge(nodes, from, m) && reaches_in(nodes, m, child, k));
    }
}

/// A reach grows by one child edge at its end.
proof fn lemma_reaches_extend(
    nodes: Seq<Option<UiNodeView>>,
    from: Handle,
    mid: Handle,
    child: Handle,
)
    requires
        reaches(nodes, from, mid),
        child_edge(nodes, mid, child),
    ensures
        reaches(nodes, from, child),
{
    let k = choose|k: nat| reaches_in(nodes, from, mid, k);
    lemma_reaches_in_extend(nodes, from, mid, child, k);
}

/// The pool a user interface is built into: the nodes, and the style their
/// builders read brushes from.
pub struct BuildContext {
    /// The node pool. A handle indexes this list; a freed slot holds `None`.
    pub nodes: Vec<Option<UiNode>>,
    /// The palette that builders read their brushes from.
    pub style: Style,
}

impl BuildContext {
    /// The pool's mathematical contents.
    pub open spec fn nodes_view(self) -> Seq<Option<UiNodeView>> {
        self.nodes@.map_values(|slot: Option<UiNode>| opt_node_view(slot))
    }

    /// An empty pool with the given style.
    pub fn new(style: Style) -> (ctx: BuildContext)
        ensures
            ctx.nodes@ == Seq::<Option<UiNode>>::empty(),
            ctx.style == style,
    {
        BuildContext { nodes: Vec::new(), style }
    }

    /// Adds a node to the pool and hands its handle out. The node's base
    /// widget learns its own handle in the same step.
    pub fn add_node(&mut self, node: UiNode) -> (handle: Handle)
        ensures
            handle.0 == old(self).nodes@.len(),
            final(self).style == old(self).style,
            final(self).nodes@.len() == old(self).nodes@.len() + 1,
            final(self).nodes_view() == old(self).nodes_view().push(
                Some(with_handle_view(node@, handle)),
            ),
    {
        let handle = Handle(self.nodes.len());
        let node = node.with_handle(handle);
        self.nodes.push(Some(node));
        proof {
            assert(self.nodes_view() =~= old(self).nodes_view().push(Some(node@)));
        }
        handle
    }

    /// Frees one slot of the pool.
    pub fn remove_node(&mut self, handle: Handle)
        requires
            handle.0 < old(self).nodes@.len(),
        ensures
            final(self).style == old(self).style,
            final(self).nodes_view() == old(self).nodes_view().update(handle.0 as int, None),
    {
        self.nodes.set(handle.0, None);
        proof {
            assert(self.nodes_view() =~= old(self).nodes_view().update(handle.0 as int, None));
        }
    }

    /// How many slots of the pool are occupied.
    pub fn live_nodes(&self) -> (n: usize)
        ensures
            n == live_count(self.nodes_view()),
    {
        let mut n: usize = 0;
        let mut i: usize = 0;
        while i < self.nodes.len()
            invariant
                i <= self.nodes@.len(),
                n <= i,
                n == live_count(self.nodes_view().take(i as int)),
            decreases self.nodes@.len() - i,
        {
            proof {
                lemma_live_count_step(self.nodes_view(), i as int);
            }
            if self.nodes[i].is_some() {
                n = n + 1;
            }
            i = i + 1;
        }
        proof {
            assert(self.nodes_view().take(self.nodes@.len() as int) =~= self.nodes_view());
        }
        n
    }

    /// Frees the slot of the given node and, transitively, the slots its
    /// children point at. The given node's own slot is freed in every case;
    /// every other slot either keeps its node, or is freed because its node
    /// was reachable from the given one.
    pub fn remove_subtree(&mut self, handle: Handle)
        requires
            handle.0 < old(self).nodes@.len(),
        ensures
            final(self).style == old(self).style,
            final(self).nodes@.len() == old(self).nodes@.len(),
            final(self).nodes_view()[handle.0 as int] is None,
            forall|i: int|
                0 <= i < old(self).nodes@.len() ==> (final(self).nodes_view()[i] == old(
                    self,
                ).nodes_view()[i] || final(self).nodes_view()[i] is None),
            forall|i: int|
                0 <= i < old(self).nodes@.len() && final(self).nodes_view()[i] is None && old(
                    self,
                ).nodes_view()[i] is Some ==> reaches(
                    old(self).nodes_view(),
                    handle,
                    Handle(i as usize),
                ),
    {
        let ghost before = old(self).nodes_view();
        let mut stack: Vec<Handle> = Vec::new();
        stack.push(handle);
        proof {
            assert(stack@[0] == handle);
            assert(reaches_in(before, handle, handle, 0));
            assert(before.len() == old(self).nodes@.len());
        }
        while stack.len() > 0
            invariant
                self.style == old(self).style,
                self.nodes@.len() == old(self).nodes@.len(),
                before.len() == old(self).nodes@.len(),
                handle.0 < self.nodes@.len(),
                forall|i: int|
                    0 <= i < before.len() ==> (self.nodes_view()[i] == before[i]
                        || self.nodes_view()[i] is None),
                forall|i: int|
                    0 <= i < before.len() && self.nodes_view()[i] is None && before[i] is Some
                        ==> reaches(before, handle, Handle(i as usize)),
                self.nodes_view()[handle.0 as int] is None || stack@.contains(handle),
                forall|j: int| 0 <= j < stack@.len() ==> reaches(before, handle, #[trigger] stack@[j]),
            decreases live_count(self.nodes_view()), stack@.len(),
        {
            let ghost popped_stack = stack@;
            let current = match stack.pop() {
                Some(top) => top,
                None => handle,
            };
            proof {
                assert(popped_stack[popped_stack.len() - 1] == current);
                assert(reaches(before, handle, current));
                if !(self.nodes_view()[handle.0 as int] is None) && current != handle {
                    let j = choose|j: int|
                        0 <= j < popped_stack.len() && popped_stack[j] == handle;
                    assert(stack@[j] == handle);
                }
            }
            if current.0 < self.nodes.len() {
                let mut was_live: bool = false;
                let ghost paused = *self;
                match &self.nodes[current.0] {
                    Some(node) => {
                        was_live = true;
                        let widget = node.widget();
                        proof {
                            assert(self.nodes_view()[current.0 as int] == Some(node@));
                        }
                        let mut k: usize = 0;
                        while k < widget.children.len()
                            invariant
                                k <= widget.children@.len(),
                                *self == paused,
                                self.style == old(self).style,
                                self.nodes@.len() == old(self).nodes@.len(),
                                before.len() == old(self).nodes@.len(),
                                handle.0 < self.nodes@.len(),
                                current.0 < self.nodes@.len(),
                                self.nodes@[current.0 as int] == Some(*node),
                                widget@ == node@.widget(),
                                reaches(before, handle, current),
                                forall|i: int|
                                    0 <= i < before.len() ==> (self.nodes_view()[i] == before[i]
                                        || self.nodes_view()[i] is None),
                                forall|i: int|
                                    0 <= i < before.len() && self.nodes_view()[i] is None
                                        && before[i] is Some ==> reaches(
                                        before,
                                        handle,
                                        Handle(i as usize),
                                    ),
                                self.nodes_view()[handle.0 as int] is None || stack@.contains(
                                    handle,
                                ) || current == handle,
                                forall|j: int|
                                    0 <= j < stack@.len() ==> reaches(
                                        before,
                                        handle,
                                        #[trigger] stack@[j],
                                    ),
                            decreases widget.children@.len() - k,
                        {
                            let child = widget.children[k];
                            let ghost grown_stack = stack@;
                            proof {
                                assert(self.nodes_view()[current.0 as int] == Some(node@));
                                assert(before[current.0 as int] == Some(node@));
                                assert(node@.widget().children[k as int] == child);
                                assert(node@.widget().children.contains(child));
                                assert(child_edge(before, current, child));
                                lemma_reaches_extend(before, handle, current, child);
                            }
                            stack.push(child);
                            proof {
                                if !(self.nodes_view()[handle.0 as int] is None) && current
                                    != handle {
                                    let j = choose|j: int|
                                        0 <= j < grown_stack.len() && grown_stack[j] == handle;
                                    assert(stack@[j] == handle);
                                }
                            }
                            k = k + 1;
                        }
                    },
                    None => {},
                }
                if was_live {
                    let ghost before_clear = self.nodes_view();
                    self.nodes.set(current.0, None);
                    proof {
                        assert(self.nodes_view() =~= before_clear.update(current.0 as int, None));
                        lemma_live_count_clear(before_clear, current.0 as int);
                        assert(Handle(current.0 as usize) == current);
                        assert(self.nodes_view()[current.0 as int] is None);
                    }
                }
            }
        }
    }
}

/// The user interface: its node pool and its message bus.
pub struct UserInterface {
    /// The node pool and style.
    pub ctx: BuildContext,
    /// The messages on the bus, oldest first.
    pub messages: Vec<UiMessage>,
}

impl UserInterface {
    /// The mathematical contents of the message bus, oldest first.
    pub open spec fn queued(self) -> Seq<UiMessageView> {
        self.messages@.map_values(|message: UiMessage| message@)
    }

    /// An empty user interface styled with the dark theme.
    pub fn new() -> (ui: UserInterface)
        ensures
            ui.ctx.nodes@ == Seq::<Option<UiNode>>::empty(),
            ui.ctx.style == Style::spec_dark_theme(),
            ui.messages@ == Seq::<UiMessage>::empty(),
    {
        UserInterface { ctx: BuildContext::new(Style::dark_theme()), messages: Vec::new() }
    }

    /// A borrow of the pool, for building widgets into this user interface.
    pub fn build_ctx(&mut self) -> (ctx: &mut BuildContext)
        ensures
            *ctx == old(self).ctx,
            final(self).ctx == *final(ctx),
            final(self).messages == old(self).messages,
    {
        &mut self.ctx
    }

    /// Puts one message on the bus.
    pub fn send_message(&mut self, message: UiMessage)
        ensures
            final(self).ctx == old(self).ctx,
            final(self).messages@ == old(self).messages@.push(message),
            final(self).queued() == old(self).queued().push(message@),
    {
        self.messages.push(message);
        proof {
            assert(self.queued() =~= old(self).queued().push(message@));
        }
    }
}

} // verus!
