//! The runtime: one component arena, its scheduler, its suspensions and
//! suspense boundaries, and the execution of units of work.
//!
//! Each component instance owns a lifecycle cell in the arena, found by its
//! stable component id.  A unit of work takes the cell's state out for the
//! duration of its run — the exclusive logical borrow — and puts it back
//! before the next unit runs; teardown leaves the cell empty, and any unit
//! that later finds it empty is a silent no-op.

use vstd::prelude::*;
use vstd::seq_lib::*;

use crate::boundary::Boundaries;
use crate::component::{Component, Context, RenderError, RenderMode};
use crate::dom::{spec_trimmed, BNode, Bundle, FNode, Fragment, Slot, VNode};
use crate::scheduler::{
    CreateUnit, DestroyUnit, PropsUpdateUnit, RenderedUnit, SchedUnit, Scheduler, SchedulerLanes,
};
use crate::state::{ComponentState, RenderState};
use crate::suspension::{Suspension, Suspensions};
use crate::Fatal;

verus! {

/// `post` is `pre` extended with `k` copies of `x`.
pub open spec fn seq_extended_with<T>(pre: Seq<T>, post: Seq<T>, x: T, k: nat) -> bool {
    &&& post.len() == pre.len() + k
    &&& forall|i: int| 0 <= i < pre.len() ==> post[i] == pre[i]
    &&& forall|i: int| pre.len() <= i < post.len() ==> post[i] == x
}

/// `post` extends `pre` without disturbing it.
pub open spec fn seq_grows_from<T>(pre: Seq<T>, post: Seq<T>) -> bool {
    &&& pre.len() <= post.len()
    &&& forall|i: int| 0 <= i < pre.len() ==> post[i] == pre[i]
}

/// How one committed node realizes one view node: text is carried over
/// byte for byte, a child descriptor becomes a mounted child instance among
/// the runtime's `n` cells.
pub open spec fn spec_realizes<P>(v: VNode<P>, b: BNode, n: nat) -> bool {
    match v {
        VNode::Text(t) => b == BNode::Text(t),
        VNode::Child(_) => b matches BNode::Child(id) && id < n,
    }
}

/// What is left of a hydration fragment after the committed view tree has
/// claimed its nodes: each text node of the tree claims a leading text
/// node, each child descriptor a leading element node; a missing
/// counterpart claims nothing.
pub open spec fn spec_consumed<P>(nodes: Seq<FNode>, tree: Seq<VNode<P>>) -> Seq<FNode>
    decreases tree.len(),
{
    if tree.len() == 0 {
        nodes
    } else {
        let rest = match tree[0] {
            VNode::Text(_) => if nodes.len() > 0 && (nodes[0] is Text) {
                nodes.drop_first()
            } else {
                nodes
            },
            VNode::Child(_) => if nodes.len() > 0 && (nodes[0] is Element) {
                nodes.drop_first()
            } else {
                nodes
            },
        };
        spec_consumed(rest, tree.drop_first())
    }
}

/// What a boundary's pending record becomes when an instance suspends on
/// `susp` while it may already track `prior`: a different tracked
/// suspension is first resumed (one occurrence released), then one
/// occurrence of `susp` is parked.
pub open spec fn spec_pending_after_suspend(
    pre: Seq<usize>,
    prior: Option<Suspension>,
    susp: Suspension,
) -> Seq<usize> {
    let mid = match prior {
        Some(last) => if last != susp {
            pre.remove_value(last.id)
        } else {
            pre
        },
        None => pre,
    };
    mid.push(susp.id)
}

/// Drains one batch of messages through the component's update hook, in
/// arrival order.  Every message is delivered even after one hook asks for
/// a re-render: the fold is a logical or, not a short-circuit.  The ghost
/// sequence records each hook's answer; the returned flag is true exactly
/// when at least one answer was.
pub fn flush_batch<C: Component>(
    component: &mut C,
    context: &Context<C::Properties>,
    batch: Vec<C::Message>,
) -> (r: (bool, Vec<C::Message>, Ghost<Seq<bool>>))
    ensures
        r.2@.len() == batch@.len(),
        r.0 == r.2@.contains(true),
{
    let mut any: bool = false;
    let mut out: Vec<C::Message> = Vec::new();
    let ghost mut results: Seq<bool> = Seq::empty();
    let ghost total = batch@.len();
    let mut batch = batch;
    while batch.len() > 0
        invariant
            results.len() + batch@.len() == total,
            any == results.contains(true),
        decreases batch@.len(),
    {
        let m = batch.remove(0);
        let (did, mut msgs) = component.update(context, m);
        out.append(&mut msgs);
        any = did || any;
        proof {
            let prev = results;
            results = results.push(did);
            if did {
                assert(results[prev.len() as int]);
                assert(results.contains(true));
            } else {
                if results.contains(true) {
                    let j = choose|j: int| 0 <= j < results.len() && results[j];
                    assert(j < prev.len() && prev[j]);
                    assert(prev.contains(true));
                }
                if prev.contains(true) {
                    let j = choose|j: int| 0 <= j < prev.len() && prev[j];
                    assert(results[j]);
                    assert(results.contains(true));
                }
            }
        }
    }
    (any, out, Ghost(results))
}

/// Applies delivered properties to a component: the failure-safe downcast
/// first (a kind mismatch is swallowed as "no change"), then value
/// equality, and only on a real change the swap and the changed hook.
/// `None` reports that no hook ran and nothing was touched; `Some(msgs)`
/// carries the messages the hook dispatched, and the flag its answer.
fn props_changed_hook<C: Component>(
    component: &mut C,
    context: &mut Context<C::Properties>,
    props: C::Properties,
) -> (r: (Option<Vec<C::Message>>, bool))
    ensures
        r.0 is None ==> !r.1 && *final(component) == *old(component) && *final(context) == *old(context),
        r.0 is Some ==> *final(context) == (Context { props, ..*old(context) }),
{
    if !component.accepts_props(&props) {
        return (None, false);
    }
    if C::props_eq(&context.props, &props) {
        return (None, false);
    }
    let mut displaced = props;
    core::mem::swap(&mut context.props, &mut displaced);
    let (did, msgs) = component.changed(context, &displaced);
    (Some(msgs), did)
}

/// One tree delivered through a server-render completion channel.
pub struct SsrDelivery<P> {
    /// The instance that produced the tree.
    pub comp_id: usize,
    /// The tree it sent.
    pub tree: Vec<VNode<P>>,
}

/// The lifecycle runtime for one component arena.
pub struct Runtime<C: Component> {
    /// The lifecycle cells, indexed by component id.  `None` is an empty
    /// cell: either a queued creation has not run yet, or the instance was
    /// destroyed.
    pub cells: Vec<Option<ComponentState<C>>>,
    /// The pending messages of each instance, in arrival order.
    pub mailboxes: Vec<Vec<C::Message>>,
    /// The unit-of-work queue.
    pub sched: Scheduler<C::Properties>,
    /// The suspension registry.
    pub suspensions: Suspensions,
    /// The suspense boundaries.
    pub boundaries: Boundaries,
    /// Trees sent through server-render completion channels, oldest first.
    pub ssr_out: Vec<SsrDelivery<C::Properties>>,
}

impl<C: Component> Runtime<C> {
    /// Well-formedness: the mailboxes parallel the cells, every queued unit
    /// and every suspension listener targets an existing cell, the normal
    /// render lane holds at most one entry per component, and every
    /// occupied cell is self-consistent and keyed by its own id.
    pub open spec fn spec_wf(self) -> bool {
        &&& self.mailboxes@.len() == self.cells@.len()
        &&& self.sched@.spec_targets_valid(self.cells@.len())
        &&& self.sched@.spec_render_lane_unique()
        &&& forall|i: int|
            0 <= i < self.cells@.len() ==> ((#[trigger] self.cells@[i]) matches Some(st) ==> (
            st.comp_id == i && st.spec_wf(
                self.cells@.len(),
                self.boundaries.list@.len(),
                self.suspensions.entries@.len(),
            )))
        &&& forall|i: int|
            0 <= i < self.suspensions.entries@.len() ==> ((
            #[trigger] self.suspensions.entries@[i]).listener matches Some(c) ==> c
                < self.cells@.len())
        &&& forall|i: int|
            0 <= i < self.sched@.create.len() ==> {
                let u = #[trigger] self.sched@.create[i];
                u.initial.spec_children_valid(self.cells@.len()) && (u.suspense_boundary
                    matches Some(b) ==> b < self.boundaries.list@.len())
            }
    }

    /// A runtime with no instances, no queued work, no suspensions and no
    /// boundaries.
    pub fn new() -> (r: Runtime<C>)
        ensures
            r.spec_wf(),
            r.cells@.len() == 0,
            r.suspensions.entries@.len() == 0,
            r.boundaries.list@.len() == 0,
            r.ssr_out@.len() == 0,
            r.sched@.spec_is_idle(),
            !r.sched@.woken,
    {
        Runtime {
            cells: Vec::new(),
            mailboxes: Vec::new(),
            sched: Scheduler::new(),
            suspensions: Suspensions::new(),
            boundaries: Boundaries::new(),
            ssr_out: Vec::new(),
        }
    }

    /// Takes the state out of a cell, leaving the cell empty: the start of
    /// a unit's exclusive borrow.
    fn take_cell(&mut self, comp_id: usize) -> (r: Option<ComponentState<C>>)
        requires
            comp_id < old(self).cells@.len(),
        ensures
            r == old(self).cells@[comp_id as int],
            final(self).cells@ == old(self).cells@.update(comp_id as int, None::<
                ComponentState<C>,
            >),
            final(self).mailboxes == old(self).mailboxes,
            final(self).sched == old(self).sched,
            final(self).suspensions == old(self).suspensions,
            final(self).boundaries == old(self).boundaries,
            final(self).ssr_out == old(self).ssr_out,
    {
        let mut slot: Option<ComponentState<C>> = None;
        self.cells.set_and_swap(comp_id, &mut slot);
        slot
    }

    /// Puts a unit's state back into its cell: the end of the borrow.
    fn put_cell(&mut self, comp_id: usize, state: Option<ComponentState<C>>)
        requires
            comp_id < old(self).cells@.len(),
        ensures
            final(self).cells@ == old(self).cells@.update(comp_id as int, state),
            final(self).mailboxes == old(self).mailboxes,
            final(self).sched == old(self).sched,
            final(self).suspensions == old(self).suspensions,
            final(self).boundaries == old(self).boundaries,
            final(self).ssr_out == old(self).ssr_out,
    {
        self.cells.set(comp_id, state);
    }

    /// Queues messages for an instance, in order, and schedules one update
    /// unit per message.
    fn dispatch_messages(&mut self, comp_id: usize, messages: Vec<C::Message>)
        requires
            comp_id < old(self).cells@.len(),
            old(self).mailboxes@.len() == old(self).cells@.len(),
        ensures
            final(self).mailboxes@.len() == old(self).mailboxes@.len(),
            (final(self).mailboxes@[comp_id as int])@ == (old(self).mailboxes@[comp_id as int])@
                + messages@,
            forall|i: int|
                0 <= i < old(self).mailboxes@.len() && i != comp_id ==> final(self).mailboxes@[i]
                    == old(self).mailboxes@[i],
            seq_extended_with(
                old(self).sched@.update,
                final(self).sched@.update,
                comp_id,
                messages@.len(),
            ),
            final(self).sched@ == (SchedulerLanes {
                update: final(self).sched@.update,
                ..old(self).sched@
            }),
            final(self).cells == old(self).cells,
            final(self).suspensions == old(self).suspensions,
            final(self).boundaries == old(self).boundaries,
            final(self).ssr_out == old(self).ssr_out,
    {
        let mut inbox: Vec<C::Message> = Vec::new();
        self.mailboxes.set_and_swap(comp_id, &mut inbox);
        let ghost orig_inbox = inbox@;
        let mut messages = messages;
        let ghost orig_messages = messages@;
        let ghost sched0 = self.sched@;
        let ghost mut consumed: int = 0;
        while messages.len() > 0
            invariant
                0 <= consumed <= orig_messages.len(),
                messages@ == orig_messages.subrange(consumed, orig_messages.len() as int),
                inbox@ == orig_inbox + orig_messages.subrange(0, consumed),
                seq_extended_with(sched0.update, self.sched@.update, comp_id, consumed as nat),
                self.sched@ == (SchedulerLanes { update: self.sched@.update, ..sched0 }),
                self.cells == old(self).cells,
                self.mailboxes@.len() == old(self).mailboxes@.len(),
                forall|i: int|
                    0 <= i < old(self).mailboxes@.len() && i != comp_id ==> self.mailboxes@[i]
                        == old(self).mailboxes@[i],
                self.suspensions == old(self).suspensions,
                self.boundaries == old(self).boundaries,
                self.ssr_out == old(self).ssr_out,
            decreases messages@.len(),
        {
            let m = messages.remove(0);
            inbox.push(m);
            self.sched.push_update(comp_id);
            proof {
                consumed = consumed + 1;
                assert(messages@ =~= orig_messages.subrange(consumed, orig_messages.len() as int));
                assert(inbox@ =~= orig_inbox + orig_messages.subrange(0, consumed));
            }
        }
        proof {
            assert(orig_messages.subrange(0, orig_messages.len() as int) =~= orig_messages);
        }
        self.mailboxes.set(comp_id, inbox);
    }

    /// Allocates a fresh cell and queues a creation unit plus the
    /// elevated-lane first render for it.
    fn mount_with(
        &mut self,
        props: C::Properties,
        initial: RenderState,
        prepared_state: Option<String>,
        suspense_boundary: Option<usize>,
    ) -> (id: usize)
        requires
            old(self).spec_wf(),
            initial.spec_children_valid(old(self).cells@.len()),
            suspense_boundary matches Some(b) ==> b < old(self).boundaries.list@.len(),
        ensures
            final(self).spec_wf(),
            id == old(self).cells@.len(),
            final(self).cells@ == old(self).cells@.push(None::<ComponentState<C>>),
            final(self).mailboxes@.len() == old(self).mailboxes@.len() + 1,
            (final(self).mailboxes@.last())@.len() == 0,
            forall|i: int|
                0 <= i < old(self).mailboxes@.len() ==> final(self).mailboxes@[i] == old(self).mailboxes@[i],
            final(self).sched@ == (SchedulerLanes {
                create: final(self).sched@.create,
                render_first: old(self).sched@.render_first.push(id),
                ..old(self).sched@
            }),
            final(self).sched@.create.len() == old(self).sched@.create.len() + 1,
            forall|i: int|
                0 <= i < old(self).sched@.create.len() ==> final(self).sched@.create[i] == old(self).sched@.create[i],
            ({
                let u = final(self).sched@.create.last();
                &&& u.comp_id == id
                &&& u.props == props
                &&& u.initial == initial
                &&& u.prepared_state == prepared_state
                &&& u.suspense_boundary == suspense_boundary
            }),
            final(self).suspensions == old(self).suspensions,
            final(self).boundaries == old(self).boundaries,
            final(self).ssr_out == old(self).ssr_out,
    {
        let id = self.cells.len();
        self.cells.push(None);
        self.mailboxes.push(Vec::new());
        self.sched.push_create(
            CreateUnit {
                comp_id: id,
                props,
                initial,
                prepared_state,
                suspense_boundary,
            },
        );
        self.sched.push_render_first(id);
        proof {
            assert forall|i: int| 0 <= i < self.cells@.len() implies ((
            #[trigger] self.cells@[i]) matches Some(st) ==> (st.comp_id == i && st.spec_wf(
                self.cells@.len(),
                self.boundaries.list@.len(),
                self.suspensions.entries@.len(),
            ))) by {
                if i < old(self).cells@.len() {
                    assert(old(self).cells@[i] == self.cells@[i]);
                    assert(old(self).spec_wf());
                }
            }
        }
        id
    }

    /// Mounts a live-render instance into a container, in front of the
    /// given sibling position, optionally inside a suspense boundary.
    /// Creation and first render run when the queue is next driven.
    pub fn mount(
        &mut self,
        props: C::Properties,
        parent: u32,
        sibling_slot: Slot,
        suspense_boundary: Option<usize>,
    ) -> (id: usize)
        requires
            old(self).spec_wf(),
            suspense_boundary matches Some(b) ==> b < old(self).boundaries.list@.len(),
        ensures
            final(self).spec_wf(),
            id == old(self).cells@.len(),
            final(self).cells@ == old(self).cells@.push(None::<ComponentState<C>>),
            final(self).sched@ == (SchedulerLanes {
                create: final(self).sched@.create,
                render_first: old(self).sched@.render_first.push(id),
                ..old(self).sched@
            }),
            final(self).sched@.create.len() == old(self).sched@.create.len() + 1,
            ({
                let u = final(self).sched@.create.last();
                &&& u.comp_id == id
                &&& u.props == props
                &&& u.prepared_state is None
                &&& u.suspense_boundary == suspense_boundary
                &&& u.initial matches RenderState::Render {
                    bundle,
                    parent: p,
                    sibling_slot: s,
                    own_slot: o,
                } && bundle.nodes@.len() == 0 && p == parent && s == sibling_slot && o
                    == sibling_slot
            }),
            final(self).suspensions == old(self).suspensions,
            final(self).boundaries == old(self).boundaries,
            final(self).ssr_out == old(self).ssr_out,
    {
        let initial = RenderState::Render {
            bundle: Bundle::new(),
            parent,
            sibling_slot,
            own_slot: sibling_slot,
        };
        self.mount_with(props, initial, None, suspense_boundary)
    }

    /// Mounts a hydrating instance over pre-rendered markup.
    pub fn mount_hydrate(
        &mut self,
        props: C::Properties,
        parent: u32,
        fragment_nodes: Vec<FNode>,
        sibling_slot: Slot,
        prepared_state: Option<String>,
        suspense_boundary: Option<usize>,
    ) -> (id: usize)
        requires
            old(self).spec_wf(),
            suspense_boundary matches Some(b) ==> b < old(self).boundaries.list@.len(),
        ensures
            final(self).spec_wf(),
            id == old(self).cells@.len(),
            final(self).cells@ == old(self).cells@.push(None::<ComponentState<C>>),
            final(self).sched@ == (SchedulerLanes {
                create: final(self).sched@.create,
                render_first: old(self).sched@.render_first.push(id),
                ..old(self).sched@
            }),
            final(self).sched@.create.len() == old(self).sched@.create.len() + 1,
            ({
                let u = final(self).sched@.create.last();
                &&& u.comp_id == id
                &&& u.props == props
                &&& u.suspense_boundary == suspense_boundary
                &&& u.initial matches RenderState::Hydration { fragment, parent: p, .. }
                    && fragment.nodes@ == fragment_nodes@ && p == parent
            }),
            final(self).suspensions == old(self).suspensions,
            final(self).boundaries == old(self).boundaries,
            final(self).ssr_out == old(self).ssr_out,
    {
        let initial = RenderState::Hydration {
            fragment: Fragment::new(fragment_nodes),
            parent,
            sibling_slot,
            own_slot: sibling_slot,
        };
        self.mount_with(props, initial, prepared_state, suspense_boundary)
    }

    /// Mounts a server-render instance whose one commit goes through the
    /// one-shot completion channel.
    pub fn mount_ssr(&mut self, props: C::Properties, suspense_boundary: Option<usize>) -> (id:
        usize)
        requires
            old(self).spec_wf(),
            suspense_boundary matches Some(b) ==> b < old(self).boundaries.list@.len(),
        ensures
            final(self).spec_wf(),
            id == old(self).cells@.len(),
            final(self).cells@ == old(self).cells@.push(None::<ComponentState<C>>),
            final(self).sched@ == (SchedulerLanes {
                create: final(self).sched@.create,
                render_first: old(self).sched@.render_first.push(id),
                ..old(self).sched@
            }),
            final(self).sched@.create.len() == old(self).sched@.create.len() + 1,
            ({
                let u = final(self).sched@.create.last();
                &&& u.comp_id == id
                &&& u.props == props
                &&& u.suspense_boundary == suspense_boundary
                &&& u.initial == (RenderState::Ssr { sender: true })
            }),
            final(self).suspensions == old(self).suspensions,
            final(self).boundaries == old(self).boundaries,
            final(self).ssr_out == old(self).ssr_out,
    {
        self.mount_with(props, RenderState::Ssr { sender: true }, None, suspense_boundary)
    }

    /// Installs a fresh suspense boundary and returns its handle.
    pub fn create_boundary(&mut self) -> (b: usize)
        requires
            old(self).spec_wf(),
        ensures
            final(self).spec_wf(),
            b == old(self).boundaries.list@.len(),
            final(self).boundaries.list@.len() == old(self).boundaries.list@.len() + 1,
            final(self).boundaries.list@[b as int].pending@.len() == 0,
            forall|i: int|
                0 <= i < old(self).boundaries.list@.len() ==> final(self).boundaries.list@[i]
                    == old(self).boundaries.list@[i],
            final(self).cells == old(self).cells,
            final(self).mailboxes == old(self).mailboxes,
            final(self).sched == old(self).sched,
            final(self).suspensions == old(self).suspensions,
            final(self).ssr_out == old(self).ssr_out,
    {
        let b = self.boundaries.create();
        proof {
            assert forall|i: int| 0 <= i < self.cells@.len() implies ((
            #[trigger] self.cells@[i]) matches Some(st) ==> (st.comp_id == i && st.spec_wf(
                self.cells@.len(),
                self.boundaries.list@.len(),
                self.suspensions.entries@.len(),
            ))) by {
                assert(old(self).spec_wf());
            }
        }
        b
    }

    /// Registers a fresh, unresolved suspension.
    pub fn create_suspension(&mut self) -> (s: Suspension)
        requires
            old(self).spec_wf(),
        ensures
            final(self).spec_wf(),
            s.id == old(self).suspensions.entries@.len(),
            final(self).suspensions.entries@ == old(self).suspensions.entries@.push(
                crate::suspension::SuspensionEntry { resolved: false, listener: None },
            ),
            final(self).cells == old(self).cells,
            final(self).mailboxes == old(self).mailboxes,
            final(self).sched == old(self).sched,
            final(self).boundaries == old(self).boundaries,
            final(self).ssr_out == old(self).ssr_out,
    {
        let s = self.suspensions.create();
        proof {
            assert forall|i: int| 0 <= i < self.cells@.len() implies ((
            #[trigger] self.cells@[i]) matches Some(st) ==> (st.comp_id == i && st.spec_wf(
                self.cells@.len(),
                self.boundaries.list@.len(),
                self.suspensions.entries@.len(),
            ))) by {
                assert(old(self).spec_wf());
            }
        }
        s
    }

    /// The external resolution signal for a suspension: marks it resolved
    /// and fires its one-shot listener, which re-queues a render for the
    /// waiting instance and pulls the scheduler's wake primitive.
    pub fn resolve_suspension(&mut self, s: Suspension)
        requires
            old(self).spec_wf(),
            old(self).suspensions.spec_valid(s),
        ensures
            final(self).spec_wf(),
            final(self).suspensions.entries@ == old(self).suspensions.entries@.update(
                s.id as int,
                crate::suspension::SuspensionEntry { resolved: true, listener: None },
            ),
            old(self).suspensions.entries@[s.id as int].listener matches Some(c) ==> {
                &&& (!old(self).sched@.render.contains(c) ==> final(self).sched@.render == old(self).sched@.render.push(c))
                &&& (old(self).sched@.render.contains(c) ==> final(self).sched@.render == old(self).sched@.render)
                &&& final(self).sched@ == (SchedulerLanes {
                    render: final(self).sched@.render,
                    woken: true,
                    ..old(self).sched@
                })
            },
            old(self).suspensions.entries@[s.id as int].listener is None ==> final(self).sched
                == old(self).sched,
            final(self).cells == old(self).cells,
            final(self).mailboxes == old(self).mailboxes,
            final(self).boundaries == old(self).boundaries,
            final(self).ssr_out == old(self).ssr_out,
    {
        let waiter = self.suspensions.resolve(s);
        match waiter {
            Some(c) => {
                self.sched.push_render(c);
                self.sched.wake();
            },
            None => {},
        }
        proof {
            assert forall|i: int| 0 <= i < self.cells@.len() implies ((
            #[trigger] self.cells@[i]) matches Some(st) ==> (st.comp_id == i && st.spec_wf(
                self.cells@.len(),
                self.boundaries.list@.len(),
                self.suspensions.entries@.len(),
            ))) by {
                assert(old(self).spec_wf());
            }
        }
    }

    /// Queues a message for an instance and schedules an update unit to
    /// flush it.
    pub fn send_message(&mut self, comp_id: usize, msg: C::Message)
        requires
            old(self).spec_wf(),
            comp_id < old(self).cells@.len(),
        ensures
            final(self).spec_wf(),
            final(self).mailboxes@.len() == old(self).mailboxes@.len(),
            (final(self).mailboxes@[comp_id as int])@ == (old(self).mailboxes@[comp_id as int])@
                .push(msg),
            forall|i: int|
                0 <= i < old(self).mailboxes@.len() && i != comp_id ==> final(self).mailboxes@[i]
                    == old(self).mailboxes@[i],
            final(self).sched@ == (SchedulerLanes {
                update: old(self).sched@.update.push(comp_id),
                ..old(self).sched@
            }),
            final(self).cells == old(self).cells,
            final(self).suspensions == old(self).suspensions,
            final(self).boundaries == old(self).boundaries,
            final(self).ssr_out == old(self).ssr_out,
    {
        let mut one: Vec<C::Message> = Vec::new();
        one.push(msg);
        self.dispatch_messages(comp_id, one);
        proof {
            assert(final(self).sched@.update =~= old(self).sched@.update.push(comp_id));
            let pre_box = old(self).mailboxes@[comp_id as int];
            assert((final(self).mailboxes@[comp_id as int])@ =~= pre_box@.push(msg));
        }
    }

    /// Queues a properties/sibling update unit for an instance.
    pub fn schedule_props_update(
        &mut self,
        comp_id: usize,
        props: Option<C::Properties>,
        next_sibling_slot: Option<Slot>,
    )
        requires
            old(self).spec_wf(),
            comp_id < old(self).cells@.len(),
        ensures
            final(self).spec_wf(),
            final(self).sched@ == (SchedulerLanes {
                props_update: final(self).sched@.props_update,
                ..old(self).sched@
            }),
            final(self).sched@.props_update.len() == old(self).sched@.props_update.len() + 1,
            ({
                let u = final(self).sched@.props_update.last();
                &&& u.comp_id == comp_id
                &&& u.props == props
                &&& u.next_sibling_slot == next_sibling_slot
            }),
            final(self).cells == old(self).cells,
            final(self).mailboxes == old(self).mailboxes,
            final(self).suspensions == old(self).suspensions,
            final(self).boundaries == old(self).boundaries,
            final(self).ssr_out == old(self).ssr_out,
    {
        self.sched.push_props_update(PropsUpdateUnit { comp_id, props, next_sibling_slot });
    }

    /// Queues a teardown unit for an instance.
    pub fn schedule_destroy(&mut self, comp_id: usize, parent_to_detach: bool)
        requires
            old(self).spec_wf(),
            comp_id < old(self).cells@.len(),
        ensures
            final(self).spec_wf(),
            final(self).sched@ == (SchedulerLanes {
                destroy: old(self).sched@.destroy.push(
                    DestroyUnit { comp_id, parent_to_detach },
                ),
                ..old(self).sched@
            }),
            final(self).cells == old(self).cells,
            final(self).mailboxes == old(self).mailboxes,
            final(self).suspensions == old(self).suspensions,
            final(self).boundaries == old(self).boundaries,
            final(self).ssr_out == old(self).ssr_out,
    {
        self.sched.push_destroy(DestroyUnit { comp_id, parent_to_detach });
    }

    /// Takes the tracked suspension, if any, and resumes it at the
    /// instance's suspense boundary — exactly once, releasing exactly one
    /// occurrence there.
    fn resume_existing_suspension(&mut self, st: &mut ComponentState<C>)
        requires
            old(self).spec_wf(),
            old(st).spec_wf(
                old(self).cells@.len(),
                old(self).boundaries.list@.len(),
                old(self).suspensions.entries@.len(),
            ),
        ensures
            final(self).spec_wf(),
            final(st).suspension is None,
            *final(st) == (ComponentState { suspension: None, ..*old(st) }),
            final(self).boundaries.list@.len() == old(self).boundaries.list@.len(),
            old(st).suspension matches Some(s) ==> {
                let b = old(st).suspense_boundary.unwrap() as int;
                &&& final(self).boundaries.list@[b].pending@ == old(self).boundaries.list@[b].pending@.remove_value(s.id)
                &&& forall|i: int|
                    0 <= i < old(self).boundaries.list@.len() && i != b ==> final(self).boundaries.list@[i] == old(self).boundaries.list@[i]
            },
            old(st).suspension is None ==> final(self).boundaries == old(self).boundaries,
            final(self).cells == old(self).cells,
            final(self).mailboxes == old(self).mailboxes,
            final(self).sched == old(self).sched,
            final(self).suspensions == old(self).suspensions,
            final(self).ssr_out == old(self).ssr_out,
    {
        let taken = st.suspension.take();
        match taken {
            Some(s) => {
                match st.suspense_boundary {
                    Some(b) => {
                        self.boundaries.resume(b, s);
                    },
                    None => {
                        proof {
                            assert(false);
                        }
                    },
                }
            },
            None => {},
        }
        proof {
            assert forall|i: int| 0 <= i < self.cells@.len() implies ((
            #[trigger] self.cells@[i]) matches Some(cst) ==> (cst.comp_id == i && cst.spec_wf(
                self.cells@.len(),
                self.boundaries.list@.len(),
                self.suspensions.entries@.len(),
            ))) by {
                assert(old(self).spec_wf());
            }
        }
    }

    /// Handles the suspension signal from view production.
    ///
    /// A suspension that already carries a resolved value — or one this
    /// registry does not know — re-queues a render immediately, closing the
    /// race where the value arrives before registration finishes.  An
    /// unresolved one requires a reachable suspense boundary: its absence
    /// is the fatal usage error.  Otherwise the instance's waiter is
    /// registered on the suspension, a previously tracked different
    /// suspension is resumed at the boundary first, the new one is tracked,
    /// and the boundary is told it is pending.
    pub fn suspend_step(&mut self, st: &mut ComponentState<C>, susp: Suspension) -> (r: Result<
        (),
        Fatal,
    >)
        requires
            old(self).spec_wf(),
            old(st).comp_id < old(self).cells@.len(),
            old(st).spec_wf(
                old(self).cells@.len(),
                old(self).boundaries.list@.len(),
                old(self).suspensions.entries@.len(),
            ),
        ensures
            final(self).spec_wf(),
            final(st).spec_wf(
                final(self).cells@.len(),
                final(self).boundaries.list@.len(),
                final(self).suspensions.entries@.len(),
            ),
            final(self).cells == old(self).cells,
            final(self).mailboxes == old(self).mailboxes,
            final(self).ssr_out == old(self).ssr_out,
            final(self).boundaries.list@.len() == old(self).boundaries.list@.len(),
            final(self).suspensions.entries@.len() == old(self).suspensions.entries@.len(),
            r matches Err(f) ==> f == Fatal::NoSuspenseBoundary,
            r is Err <==> old(self).suspensions.spec_valid(susp) && !old(self).suspensions.entries@[susp.id as int].resolved && old(st).suspense_boundary is None,
            r is Err ==> *final(st) == *old(st) && final(self).sched == old(self).sched && final(self).suspensions == old(self).suspensions && final(self).boundaries == old(self).boundaries,
            !old(self).suspensions.spec_valid(susp) || old(self).suspensions.entries@[susp.id as int].resolved ==> {
                &&& *final(st) == *old(st)
                &&& final(self).suspensions == old(self).suspensions
                &&& final(self).boundaries == old(self).boundaries
                &&& (!old(self).sched@.render.contains(old(st).comp_id) ==> final(self).sched@
                    == (SchedulerLanes {
                    render: old(self).sched@.render.push(old(st).comp_id),
                    ..old(self).sched@
                }))
                &&& (old(self).sched@.render.contains(old(st).comp_id) ==> final(self).sched@
                    == old(self).sched@)
            },
            old(st).suspense_boundary matches Some(b) ==> (old(self).suspensions.spec_valid(susp)
                && !old(self).suspensions.entries@[susp.id as int].resolved ==> {
                &&& *final(st) == (ComponentState { suspension: Some(susp), ..*old(st) })
                &&& final(self).sched == old(self).sched
                &&& final(self).suspensions.entries@ == old(self).suspensions.entries@.update(
                    susp.id as int,
                    crate::suspension::SuspensionEntry {
                        resolved: false,
                        listener: Some(old(st).comp_id),
                    },
                )
                &&& final(self).boundaries.list@[b as int].pending@
                    == spec_pending_after_suspend(
                    old(self).boundaries.list@[b as int].pending@,
                    old(st).suspension,
                    susp,
                )
                &&& forall|i: int|
                    0 <= i < old(self).boundaries.list@.len() && i != b ==> final(self).boundaries.list@[i] == old(self).boundaries.list@[i]
            }),
    {
        let known = susp.id < self.suspensions.entries.len();
        if !known || self.suspensions.is_resolved(susp) {
            self.sched.push_render(st.comp_id);
            proof {
                assert forall|i: int| 0 <= i < self.cells@.len() implies ((
                #[trigger] self.cells@[i]) matches Some(cst) ==> (cst.comp_id == i && cst.spec_wf(
                    self.cells@.len(),
                    self.boundaries.list@.len(),
                    self.suspensions.entries@.len(),
                ))) by {
                    assert(old(self).spec_wf());
                }
            }
            return Ok(());
        }
        match st.suspense_boundary {
            None => Err(Fatal::NoSuspenseBoundary),
            Some(b) => {
                self.suspensions.listen(susp, st.comp_id);
                match st.suspension {
                    Some(last) => {
                        if last != susp {
                            self.boundaries.resume(b, last);
                        }
                    },
                    None => {},
                }
                st.suspension = Some(susp);
                self.boundaries.suspend(b, susp);
                proof {
                    assert forall|i: int| 0 <= i < self.cells@.len() implies ((
                    #[trigger] self.cells@[i]) matches Some(cst) ==> (cst.comp_id == i
                        && cst.spec_wf(
                        self.cells@.len(),
                        self.boundaries.list@.len(),
                        self.suspensions.entries@.len(),
                    ))) by {
                        assert(old(self).spec_wf());
                    }
                }
                Ok(())
            },
        }
    }

    /// Runs an update unit: flushes every queued message through the
    /// component, then schedules one render exactly when some fold asked
    /// for it.  The ghost result records each update hook's answer in
    /// arrival order; a render is queued — once, however many updates ran
    /// before it — exactly when the record contains `true`.  An empty cell
    /// makes the unit a silent no-op.
    ///
    /// The second ghost result records the messages the update hooks newly
    /// dispatched while flushing: the instance's mailbox afterwards holds
    /// exactly those — everything previously queued was delivered — and
    /// one follow-up update unit was queued for each.  No other instance's
    /// mailbox is touched.
    pub fn run_update(&mut self, comp_id: usize) -> (r: (Ghost<Seq<bool>>, Ghost<
        Seq<C::Message>,
    >))
        requires
            old(self).spec_wf(),
            comp_id < old(self).cells@.len(),
        ensures
            final(self).spec_wf(),
            final(self).cells@.len() == old(self).cells@.len(),
            final(self).mailboxes@.len() == old(self).mailboxes@.len(),
            forall|i: int|
                0 <= i < old(self).mailboxes@.len() && i != comp_id ==> final(self).mailboxes@[i]
                    == old(self).mailboxes@[i],
            old(self).cells@[comp_id as int] is None ==> final(self).cells@ == old(self).cells@
                && final(self).mailboxes == old(self).mailboxes && final(self).sched == old(self).sched && final(self).suspensions == old(self).suspensions && final(self).boundaries
                == old(self).boundaries && final(self).ssr_out == old(self).ssr_out,
            old(self).cells@[comp_id as int] matches Some(st) ==> {
                &&& r.0@.len() == (old(self).mailboxes@[comp_id as int])@.len()
                &&& (final(self).mailboxes@[comp_id as int])@ == r.1@
                &&& (r.0@.contains(true) && !old(self).sched@.render.contains(comp_id) ==> final(self).sched@.render == old(self).sched@.render.push(comp_id))
                &&& (r.0@.contains(true) && old(self).sched@.render.contains(comp_id) ==> final(self).sched@.render == old(self).sched@.render)
                &&& (!r.0@.contains(true) ==> final(self).sched@.render == old(self).sched@.render)
                &&& final(self).sched@ == (SchedulerLanes {
                    update: final(self).sched@.update,
                    render: final(self).sched@.render,
                    ..old(self).sched@
                })
                &&& seq_extended_with(
                    old(self).sched@.update,
                    final(self).sched@.update,
                    comp_id,
                    r.1@.len(),
                )
                &&& (final(self).cells@[comp_id as int] matches Some(st2) && st2.comp_id
                    == st.comp_id && st2.context == st.context && st2.render_state
                    == st.render_state && st2.has_rendered == st.has_rendered && st2.suspension
                    == st.suspension && st2.suspense_boundary == st.suspense_boundary
                    && st2.pending_props == st.pending_props)
                &&& forall|i: int|
                    0 <= i < old(self).cells@.len() && i != comp_id ==> final(self).cells@[i]
                        == old(self).cells@[i]
                &&& final(self).suspensions == old(self).suspensions
                &&& final(self).boundaries == old(self).boundaries
                &&& final(self).ssr_out == old(self).ssr_out
            },
    {
        let cell = self.take_cell(comp_id);
        match cell {
            None => {
                self.put_cell(comp_id, None);
                proof {
                    assert(self.cells@ =~= old(self).cells@);
                }
                (Ghost(Seq::empty()), Ghost(Seq::empty()))
            },
            Some(st) => {
                let ComponentState {
                    mut component,
                    context,
                    render_state,
                    has_rendered,
                    pending_props,
                    suspension,
                    suspense_boundary,
                    comp_id: own_id,
                } = st;
                let mut batch: Vec<C::Message> = Vec::new();
                self.mailboxes.set_and_swap(comp_id, &mut batch);
                let (schedule_render, msgs, Ghost(results)) = flush_batch::<C>(
                    &mut component,
                    &context,
                    batch,
                );
                let ghost dispatched = msgs@;
                self.dispatch_messages(comp_id, msgs);
                if schedule_render {
                    self.sched.push_render(comp_id);
                }
                let st2 = ComponentState {
                    component,
                    context,
                    render_state,
                    has_rendered,
                    pending_props,
                    suspension,
                    suspense_boundary,
                    comp_id: own_id,
                };
                self.put_cell(comp_id, Some(st2));
                proof {
                    assert forall|i: int| 0 <= i < self.cells@.len() implies ((
                    #[trigger] self.cells@[i]) matches Some(cst) ==> (cst.comp_id == i
                        && cst.spec_wf(
                        self.cells@.len(),
                        self.boundaries.list@.len(),
                        self.suspensions.entries@.len(),
                    ))) by {
                        assert(old(self).spec_wf());
                        if i != comp_id {
                            assert(self.cells@[i] == old(self).cells@[i]);
                        }
                    }
                }
                (Ghost(results), Ghost(dispatched))
            },
        }
    }

    /// Mounts a fresh child instance discovered in a committed view tree:
    /// allocates its cell and queues its creation and elevated first
    /// render.  The child inherits its parent's suspense boundary.
    fn mount_child(&mut self, props: C::Properties, parent: u32, boundary: Option<usize>) -> (id:
        usize)
        requires
            old(self).spec_wf(),
            boundary matches Some(b) ==> b < old(self).boundaries.list@.len(),
        ensures
            final(self).spec_wf(),
            id == old(self).cells@.len(),
            final(self).cells@ == old(self).cells@.push(None::<ComponentState<C>>),
            final(self).mailboxes@.len() == old(self).mailboxes@.len() + 1,
            forall|i: int|
                0 <= i < old(self).mailboxes@.len() ==> final(self).mailboxes@[i] == old(self).mailboxes@[i],
            seq_grows_from(old(self).sched@.create, final(self).sched@.create),
            final(self).sched@ == (SchedulerLanes {
                create: final(self).sched@.create,
                render_first: old(self).sched@.render_first.push(id),
                ..old(self).sched@
            }),
            final(self).suspensions == old(self).suspensions,
            final(self).boundaries == old(self).boundaries,
            final(self).ssr_out == old(self).ssr_out,
    {
        let initial = RenderState::Render {
            bundle: Bundle::new(),
            parent,
            sibling_slot: Slot::AtEnd,
            own_slot: Slot::AtEnd,
        };
        self.mount_with(props, initial, None, boundary)
    }

    /// Reconciles a committed view tree into the render target that held
    /// `prior`, position by position: text is realized directly, a child
    /// descriptor over a position-matched mounted child keeps that child
    /// and queues a properties update for it carrying the new properties, a
    /// child descriptor over anything else mounts a fresh instance, and
    /// every child instance displaced by text or left beyond the new
    /// tree's length is queued for teardown.
    fn reconcile(
        &mut self,
        prior: Vec<BNode>,
        parent: u32,
        boundary: Option<usize>,
        new_tree: Vec<VNode<C::Properties>>,
    ) -> (b: Bundle)
        requires
            old(self).spec_wf(),
            boundary matches Some(bd) ==> bd < old(self).boundaries.list@.len(),
            forall|i: int|
                0 <= i < prior@.len() ==> ((#[trigger] prior@[i]) matches BNode::Child(id) ==> id
                    < old(self).cells@.len()),
        ensures
            final(self).spec_wf(),
            b.nodes@.len() == new_tree@.len(),
            forall|i: int|
                0 <= i < new_tree@.len() ==> spec_realizes(
                    new_tree@[i],
                    #[trigger] b.nodes@[i],
                    final(self).cells@.len(),
                ),
            forall|i: int|
                0 <= i < new_tree@.len() && i < prior@.len() && new_tree@[i] is Child
                    && prior@[i] is Child ==> #[trigger] b.nodes@[i] == prior@[i],
            final(self).sched@.props_update == old(self).sched@.props_update
                + spec_reconcile_props_updates(prior@, new_tree@),
            final(self).sched@.destroy == old(self).sched@.destroy + spec_reconcile_destroys(
                prior@,
                new_tree@,
            ),
            seq_grows_from(old(self).cells@, final(self).cells@),
            final(self).mailboxes@.len() == final(self).cells@.len(),
            forall|i: int|
                0 <= i < old(self).mailboxes@.len() ==> final(self).mailboxes@[i] == old(self).mailboxes@[i],
            seq_grows_from(old(self).sched@.create, final(self).sched@.create),
            seq_grows_from(old(self).sched@.destroy, final(self).sched@.destroy),
            seq_grows_from(old(self).sched@.props_update, final(self).sched@.props_update),
            seq_grows_from(old(self).sched@.render_first, final(self).sched@.render_first),
            final(self).sched@ == (SchedulerLanes {
                create: final(self).sched@.create,
                destroy: final(self).sched@.destroy,
                props_update: final(self).sched@.props_update,
                render_first: final(self).sched@.render_first,
                ..old(self).sched@
            }),
            final(self).suspensions == old(self).suspensions,
            final(self).boundaries == old(self).boundaries,
            final(self).ssr_out == old(self).ssr_out,
    {
        let ghost orig_new = new_tree@;
        let ghost orig_prior = prior@;
        let mut remaining_new = new_tree;
        let mut remaining_prior = prior;
        let mut realized: Vec<BNode> = Vec::new();
        while remaining_new.len() > 0
            invariant
                old(self).spec_wf(),
                self.spec_wf(),
                boundary matches Some(bd) ==> bd < self.boundaries.list@.len(),
                realized@.len() + remaining_new@.len() == orig_new.len(),
                forall|i: int|
                    0 <= i < remaining_new@.len() ==> remaining_new@[i] == orig_new[realized@.len()
                        + i],
                remaining_prior@ == orig_prior.subrange(
                    if realized@.len() <= orig_prior.len() {
                        realized@.len() as int
                    } else {
                        orig_prior.len() as int
                    },
                    orig_prior.len() as int,
                ),
                forall|i: int|
                    0 <= i < realized@.len() ==> spec_realizes(
                        orig_new[i],
                        #[trigger] realized@[i],
                        self.cells@.len(),
                    ),
                forall|i: int|
                    0 <= i < realized@.len() && i < orig_prior.len() && orig_new[i] is Child
                        && orig_prior[i] is Child ==> #[trigger] realized@[i] == orig_prior[i],
                forall|i: int|
                    0 <= i < remaining_prior@.len() ==> ((#[trigger] remaining_prior@[i]) matches
                        BNode::Child(id) ==> id < self.cells@.len()),
                self.sched@.props_update + spec_reconcile_props_updates(
                    remaining_prior@,
                    remaining_new@,
                ) == old(self).sched@.props_update + spec_reconcile_props_updates(
                    orig_prior,
                    orig_new,
                ),
                self.sched@.destroy + spec_reconcile_destroys(remaining_prior@, remaining_new@)
                    == old(self).sched@.destroy + spec_reconcile_destroys(orig_prior, orig_new),
                seq_grows_from(old(self).cells@, self.cells@),
                self.mailboxes@.len() == self.cells@.len(),
                forall|i: int|
                    0 <= i < old(self).mailboxes@.len() ==> self.mailboxes@[i] == old(self).mailboxes@[i],
                seq_grows_from(old(self).sched@.create, self.sched@.create),
                seq_grows_from(old(self).sched@.destroy, self.sched@.destroy),
                seq_grows_from(old(self).sched@.props_update, self.sched@.props_update),
                seq_grows_from(old(self).sched@.render_first, self.sched@.render_first),
                self.sched@ == (SchedulerLanes {
                    create: self.sched@.create,
                    destroy: self.sched@.destroy,
                    props_update: self.sched@.props_update,
                    render_first: self.sched@.render_first,
                    ..old(self).sched@
                }),
                self.suspensions == old(self).suspensions,
                self.boundaries == old(self).boundaries,
                self.ssr_out == old(self).ssr_out,
            decreases remaining_new@.len(),
        {
            let ghost pre_new = remaining_new@;
            let ghost pre_prior = remaining_prior@;
            let ghost pre_pu = self.sched@.props_update;
            let ghost pre_d = self.sched@.destroy;
            let node = remaining_new.remove(0);
            proof {
                assert(remaining_new@ =~= pre_new.drop_first());
            }
            let displaced = if remaining_prior.len() > 0 {
                let head = remaining_prior.remove(0);
                proof {
                    assert(remaining_prior@ =~= pre_prior.drop_first());
                }
                Some(head)
            } else {
                None
            };
            match node {
                VNode::Text(t) => {
                    match displaced {
                        Some(BNode::Child(id)) => {
                            self.sched.push_destroy(
                                DestroyUnit { comp_id: id, parent_to_detach: false },
                            );
                            proof {
                                assert(self.sched@.destroy + spec_reconcile_destroys(
                                    remaining_prior@,
                                    remaining_new@,
                                ) =~= pre_d + spec_reconcile_destroys(pre_prior, pre_new));
                            }
                        },
                        _ => {},
                    }
                    realized.push(BNode::Text(t));
                },
                VNode::Child(p) => {
                    match displaced {
                        Some(BNode::Child(id)) => {
                            self.sched.push_props_update(
                                PropsUpdateUnit {
                                    comp_id: id,
                                    props: Some(p),
                                    next_sibling_slot: None,
                                },
                            );
                            proof {
                                assert(self.sched@.props_update + spec_reconcile_props_updates(
                                    remaining_prior@,
                                    remaining_new@,
                                ) =~= pre_pu + spec_reconcile_props_updates(pre_prior, pre_new));
                            }
                            realized.push(BNode::Child(id));
                        },
                        _ => {
                            let id = self.mount_child(p, parent, boundary);
                            realized.push(BNode::Child(id));
                        },
                    }
                },
            }
            proof {
                assert(self.sched@.props_update + spec_reconcile_props_updates(
                    remaining_prior@,
                    remaining_new@,
                ) =~= old(self).sched@.props_update + spec_reconcile_props_updates(
                    orig_prior,
                    orig_new,
                ));
                assert(self.sched@.destroy + spec_reconcile_destroys(
                    remaining_prior@,
                    remaining_new@,
                ) =~= old(self).sched@.destroy + spec_reconcile_destroys(orig_prior, orig_new));
                assert(remaining_prior@ =~= orig_prior.subrange(
                    if realized@.len() <= orig_prior.len() {
                        realized@.len() as int
                    } else {
                        orig_prior.len() as int
                    },
                    orig_prior.len() as int,
                ));
            }
        }
        proof {
            assert(spec_reconcile_props_updates(remaining_prior@, remaining_new@)
                =~= Seq::<PropsUpdateUnit<C::Properties>>::empty());
            assert(self.sched@.props_update =~= old(self).sched@.props_update
                + spec_reconcile_props_updates(orig_prior, orig_new));
            assert(spec_reconcile_destroys(remaining_prior@, remaining_new@)
                == spec_child_destroys(remaining_prior@, false));
        }
        while remaining_prior.len() > 0
            invariant
                old(self).spec_wf(),
                self.spec_wf(),
                forall|i: int|
                    0 <= i < remaining_prior@.len() ==> ((#[trigger] remaining_prior@[i]) matches
                        BNode::Child(id) ==> id < self.cells@.len()),
                forall|i: int|
                    0 <= i < realized@.len() ==> spec_realizes(
                        orig_new[i],
                        #[trigger] realized@[i],
                        self.cells@.len(),
                    ),
                forall|i: int|
                    0 <= i < realized@.len() && i < orig_prior.len() && orig_new[i] is Child
                        && orig_prior[i] is Child ==> #[trigger] realized@[i] == orig_prior[i],
                realized@.len() == orig_new.len(),
                self.sched@.props_update == old(self).sched@.props_update
                    + spec_reconcile_props_updates(orig_prior, orig_new),
                self.sched@.destroy + spec_child_destroys(remaining_prior@, false) == old(self).sched@.destroy + spec_reconcile_destroys(orig_prior, orig_new),
                seq_grows_from(old(self).cells@, self.cells@),
                self.mailboxes@.len() == self.cells@.len(),
                forall|i: int|
                    0 <= i < old(self).mailboxes@.len() ==> self.mailboxes@[i] == old(self).mailboxes@[i],
                seq_grows_from(old(self).sched@.create, self.sched@.create),
                seq_grows_from(old(self).sched@.destroy, self.sched@.destroy),
                seq_grows_from(old(self).sched@.props_update, self.sched@.props_update),
                seq_grows_from(old(self).sched@.render_first, self.sched@.render_first),
                self.sched@ == (SchedulerLanes {
                    create: self.sched@.create,
                    destroy: self.sched@.destroy,
                    props_update: self.sched@.props_update,
                    render_first: self.sched@.render_first,
                    ..old(self).sched@
                }),
                self.suspensions == old(self).suspensions,
                self.boundaries == old(self).boundaries,
                self.ssr_out == old(self).ssr_out,
            decreases remaining_prior@.len(),
        {
            let ghost pre_prior = remaining_prior@;
            let ghost pre_d = self.sched@.destroy;
            let gone = remaining_prior.remove(0);
            proof {
                assert(remaining_prior@ =~= pre_prior.drop_first());
            }
            match gone {
                BNode::Child(id) => {
                    self.sched.push_destroy(
                        DestroyUnit { comp_id: id, parent_to_detach: false },
                    );
                    proof {
                        assert(self.sched@.destroy + spec_child_destroys(remaining_prior@, false)
                            =~= pre_d + spec_child_destroys(pre_prior, false));
                    }
                },
                BNode::Text(_) => {},
            }
        }
        proof {
            assert(self.sched@.destroy =~= old(self).sched@.destroy + spec_reconcile_destroys(
                orig_prior,
                orig_new,
            ));
        }
        Bundle { nodes: realized }
    }

    /// Merges a committed view tree against the pre-rendered fragment to
    /// build a realized render target: each tree node claims its leading
    /// fragment counterpart, and each child descriptor mounts a fresh child
    /// instance.  Returns the realized target and what is left of the
    /// fragment.
    fn hydrate_merge(
        &mut self,
        fragment_nodes: Vec<FNode>,
        parent: u32,
        boundary: Option<usize>,
        new_tree: Vec<VNode<C::Properties>>,
    ) -> (r: (Bundle, Fragment))
        requires
            old(self).spec_wf(),
            boundary matches Some(bd) ==> bd < old(self).boundaries.list@.len(),
        ensures
            final(self).spec_wf(),
            r.1.nodes@ == spec_consumed(fragment_nodes@, new_tree@),
            r.0.nodes@.len() == new_tree@.len(),
            forall|i: int|
                0 <= i < new_tree@.len() ==> spec_realizes(
                    new_tree@[i],
                    #[trigger] r.0.nodes@[i],
                    final(self).cells@.len(),
                ),
            seq_grows_from(old(self).cells@, final(self).cells@),
            final(self).mailboxes@.len() == final(self).cells@.len(),
            forall|i: int|
                0 <= i < old(self).mailboxes@.len() ==> final(self).mailboxes@[i] == old(self).mailboxes@[i],
            seq_grows_from(old(self).sched@.create, final(self).sched@.create),
            seq_grows_from(old(self).sched@.render_first, final(self).sched@.render_first),
            final(self).sched@ == (SchedulerLanes {
                create: final(self).sched@.create,
                render_first: final(self).sched@.render_first,
                ..old(self).sched@
            }),
            final(self).suspensions == old(self).suspensions,
            final(self).boundaries == old(self).boundaries,
            final(self).ssr_out == old(self).ssr_out,
    {
        let ghost orig_new = new_tree@;
        let ghost orig_frag = fragment_nodes@;
        let mut rest = fragment_nodes;
        let mut remaining_new = new_tree;
        let mut realized: Vec<BNode> = Vec::new();
        while remaining_new.len() > 0
            invariant
                old(self).spec_wf(),
                self.spec_wf(),
                boundary matches Some(bd) ==> bd < self.boundaries.list@.len(),
                realized@.len() + remaining_new@.len() == orig_new.len(),
                forall|i: int|
                    0 <= i < remaining_new@.len() ==> remaining_new@[i] == orig_new[realized@.len()
                        + i],
                forall|i: int|
                    0 <= i < realized@.len() ==> spec_realizes(
                        orig_new[i],
                        #[trigger] realized@[i],
                        self.cells@.len(),
                    ),
                spec_consumed(rest@, remaining_new@) == spec_consumed(orig_frag, orig_new),
                seq_grows_from(old(self).cells@, self.cells@),
                self.mailboxes@.len() == self.cells@.len(),
                forall|i: int|
                    0 <= i < old(self).mailboxes@.len() ==> self.mailboxes@[i] == old(self).mailboxes@[i],
                seq_grows_from(old(self).sched@.create, self.sched@.create),
                seq_grows_from(old(self).sched@.render_first, self.sched@.render_first),
                self.sched@ == (SchedulerLanes {
                    create: self.sched@.create,
                    render_first: self.sched@.render_first,
                    ..old(self).sched@
                }),
                self.suspensions == old(self).suspensions,
                self.boundaries == old(self).boundaries,
                self.ssr_out == old(self).ssr_out,
            decreases remaining_new@.len(),
        {
            let ghost pre_rest = rest@;
            let ghost pre_remaining = remaining_new@;
            let node = remaining_new.remove(0);
            proof {
                assert(remaining_new@ =~= pre_remaining.drop_first());
            }
            match node {
                VNode::Text(t) => {
                    if rest.len() > 0 && rest[0].is_text() {
                        let _ = rest.remove(0);
                        proof {
                            assert(rest@ =~= pre_rest.drop_first());
                        }
                    }
                    realized.push(BNode::Text(t));
                },
                VNode::Child(p) => {
                    if rest.len() > 0 && rest[0].is_element() {
                        let _ = rest.remove(0);
                        proof {
                            assert(rest@ =~= pre_rest.drop_first());
                        }
                    }
                    let id = self.mount_child(p, parent, boundary);
                    realized.push(BNode::Child(id));
                },
            }
            proof {
                assert(spec_consumed(pre_rest, pre_remaining) == spec_consumed(
                    rest@,
                    remaining_new@,
                ));
            }
        }
        (Bundle { nodes: realized }, Fragment { nodes: rest })
    }

    /// Commits a produced view tree: first resumes any previously tracked
    /// suspension exactly once, then dispatches on the active render
    /// backend.
    ///
    /// A live-render target reconciles the tree in place, refreshes the
    /// own-position marker, records that a render has happened, and queues
    /// the post-commit effect — on the elevated effect lane exactly when
    /// this was the instance's first render.  A hydrating target first
    /// queues an elevated re-render (node references captured during
    /// hydration are provisional), merges the tree against the fragment,
    /// trims leading whitespace-only text nodes, and demands the fragment
    /// fully consumed — anything left is the fatal hydration mismatch — and
    /// transitions, once only, to the live-render backend.  A server-render
    /// target sends the tree through the one-shot completion channel, which
    /// is never used twice.
    pub fn commit_render(
        &mut self,
        st: &mut ComponentState<C>,
        new_tree: Vec<VNode<C::Properties>>,
    ) -> (r: Result<(), Fatal>)
        requires
            old(self).spec_wf(),
            old(st).comp_id < old(self).cells@.len(),
            old(st).spec_wf(
                old(self).cells@.len(),
                old(self).boundaries.list@.len(),
                old(self).suspensions.entries@.len(),
            ),
        ensures
            final(self).spec_wf(),
            final(st).spec_wf(
                final(self).cells@.len(),
                final(self).boundaries.list@.len(),
                final(self).suspensions.entries@.len(),
            ),
            final(st).comp_id == old(st).comp_id,
            final(st).component == old(st).component,
            final(st).context == old(st).context,
            final(st).pending_props == old(st).pending_props,
            final(st).suspense_boundary == old(st).suspense_boundary,
            final(st).suspension is None,
            old(st).suspension matches Some(s) ==> (old(st).suspense_boundary matches Some(b)
                && final(self).boundaries.list@[b as int].pending@ == old(self).boundaries.list@[b as int].pending@.remove_value(s.id) && (forall|i: int|
                0 <= i < old(self).boundaries.list@.len() && i != b ==> final(self).boundaries.list@[i] == old(self).boundaries.list@[i])),
            old(st).suspension is None ==> final(self).boundaries == old(self).boundaries,
            final(self).boundaries.list@.len() == old(self).boundaries.list@.len(),
            final(self).suspensions == old(self).suspensions,
            seq_grows_from(old(self).cells@, final(self).cells@),
            forall|i: int|
                0 <= i < old(self).mailboxes@.len() ==> final(self).mailboxes@[i] == old(self).mailboxes@[i],
            old(st).render_state matches RenderState::Render {
                bundle,
                parent,
                sibling_slot,
                own_slot,
            } ==> {
                &&& r is Ok
                &&& final(st).has_rendered
                &&& final(st).render_state matches RenderState::Render {
                    bundle: nb,
                    parent: p2,
                    sibling_slot: s2,
                    own_slot: o2,
                } && p2 == parent && s2 == sibling_slot && nb.nodes@.len() == new_tree@.len() && (
                forall|i: int|
                    0 <= i < new_tree@.len() ==> spec_realizes(
                        new_tree@[i],
                        #[trigger] nb.nodes@[i],
                        final(self).cells@.len(),
                    )) && (forall|i: int|
                    0 <= i < new_tree@.len() && i < bundle.nodes@.len() && new_tree@[i] is Child
                        && bundle.nodes@[i] is Child ==> #[trigger] nb.nodes@[i]
                        == bundle.nodes@[i]) && o2 == (if new_tree@.len() == 0 {
                    sibling_slot
                } else {
                    Slot::Node(old(st).comp_id)
                })
                &&& final(self).sched@.props_update == old(self).sched@.props_update
                    + spec_reconcile_props_updates(bundle.nodes@, new_tree@)
                &&& final(self).sched@.destroy == old(self).sched@.destroy
                    + spec_reconcile_destroys(bundle.nodes@, new_tree@)
                &&& (!old(st).has_rendered ==> final(self).sched@.rendered_first == old(self).sched@.rendered_first.push(
                    RenderedUnit { comp_id: old(st).comp_id, first_render: true },
                ) && final(self).sched@.rendered == old(self).sched@.rendered)
                &&& (old(st).has_rendered ==> final(self).sched@.rendered == old(self).sched@.rendered.push(
                    RenderedUnit { comp_id: old(st).comp_id, first_render: false },
                ) && final(self).sched@.rendered_first == old(self).sched@.rendered_first)
                &&& final(self).sched@ == (SchedulerLanes {
                    create: final(self).sched@.create,
                    destroy: final(self).sched@.destroy,
                    props_update: final(self).sched@.props_update,
                    render_first: final(self).sched@.render_first,
                    rendered_first: final(self).sched@.rendered_first,
                    rendered: final(self).sched@.rendered,
                    ..old(self).sched@
                })
            },
            old(st).render_state matches RenderState::Hydration {
                fragment,
                parent,
                sibling_slot,
                own_slot,
            } ==> {
                &&& (r is Ok <==> spec_trimmed(
                    spec_consumed(fragment.nodes@, new_tree@),
                ).len() == 0)
                &&& (r matches Err(f) ==> f == Fatal::HydrationMismatch)
                &&& !final(st).has_rendered
                &&& (r is Ok ==> (final(st).render_state matches RenderState::Render {
                    bundle: nb,
                    parent: p2,
                    sibling_slot: s2,
                    own_slot: o2,
                } && p2 == parent && s2 == sibling_slot && o2 == own_slot && nb.nodes@.len()
                    == new_tree@.len() && (forall|i: int|
                    0 <= i < new_tree@.len() ==> spec_realizes(
                        new_tree@[i],
                        #[trigger] nb.nodes@[i],
                        final(self).cells@.len(),
                    ))))
                &&& (r is Err ==> (final(st).render_state matches RenderState::Hydration {
                    fragment: f2,
                    parent: p2,
                    ..
                } && f2.nodes@ == spec_trimmed(spec_consumed(fragment.nodes@, new_tree@)) && p2
                    == parent))
                &&& seq_grows_from(
                    old(self).sched@.render_first.push(old(st).comp_id),
                    final(self).sched@.render_first,
                )
                &&& final(self).sched@ == (SchedulerLanes {
                    create: final(self).sched@.create,
                    render_first: final(self).sched@.render_first,
                    ..old(self).sched@
                })
            },
            old(st).render_state matches RenderState::Ssr { sender } ==> {
                &&& r is Ok
                &&& final(st).render_state == (RenderState::Ssr { sender: false })
                &&& final(st).has_rendered == old(st).has_rendered
                &&& (sender ==> final(self).ssr_out@ == old(self).ssr_out@.push(
                    SsrDelivery { comp_id: old(st).comp_id, tree: new_tree },
                ))
                &&& (!sender ==> final(self).ssr_out == old(self).ssr_out)
                &&& final(self).sched@ == old(self).sched@
                &&& final(self).cells == old(self).cells
            },
    {
        self.resume_existing_suspension(st);
        let mut taken = RenderState::Ssr { sender: false };
        core::mem::swap(&mut st.render_state, &mut taken);
        match taken {
            RenderState::Render { bundle, parent, sibling_slot, own_slot } => {
                let nb = self.reconcile(bundle.nodes, parent, st.suspense_boundary, new_tree);
                let own_slot = if nb.nodes.len() == 0 {
                    sibling_slot
                } else {
                    Slot::Node(st.comp_id)
                };
                st.render_state = RenderState::Render { bundle: nb, parent, sibling_slot, own_slot };
                let first_render = !st.has_rendered;
                st.has_rendered = true;
                self.sched.push_rendered(st.comp_id, first_render);
                proof {
                    assert forall|i: int| 0 <= i < self.cells@.len() implies ((
                    #[trigger] self.cells@[i]) matches Some(cst) ==> (cst.comp_id == i
                        && cst.spec_wf(
                        self.cells@.len(),
                        self.boundaries.list@.len(),
                        self.suspensions.entries@.len(),
                    ))) by {}
                }
                Ok(())
            },
            RenderState::Hydration { fragment, parent, sibling_slot, own_slot } => {
                self.sched.push_render_first(st.comp_id);
                let (nb, mut rest) = self.hydrate_merge(
                    fragment.nodes,
                    parent,
                    st.suspense_boundary,
                    new_tree,
                );
                rest.trim_start_text_nodes();
                if rest.is_empty() {
                    st.render_state = RenderState::Render {
                        bundle: nb,
                        parent,
                        sibling_slot,
                        own_slot,
                    };
                    Ok(())
                } else {
                    st.render_state = RenderState::Hydration {
                        fragment: rest,
                        parent,
                        sibling_slot,
                        own_slot,
                    };
                    Err(Fatal::HydrationMismatch)
                }
            },
            RenderState::Ssr { sender } => {
                if sender {
                    self.ssr_out.push(SsrDelivery { comp_id: st.comp_id, tree: new_tree });
                }
                st.render_state = RenderState::Ssr { sender: false };
                Ok(())
            },
        }
    }

    /// Runs a render unit: invokes the component's view hook, then either
    /// commits the produced tree or enters suspend handling.  An empty cell
    /// makes the unit a silent no-op.
    pub fn run_render(&mut self, comp_id: usize) -> (r: Result<(), Fatal>)
        requires
            old(self).spec_wf(),
            comp_id < old(self).cells@.len(),
        ensures
            final(self).spec_wf(),
            final(self).cells@.len() >= old(self).cells@.len(),
            forall|i: int|
                0 <= i < old(self).cells@.len() && i != comp_id ==> final(self).cells@[i] == old(self).cells@[i],
            old(self).cells@[comp_id as int] is None ==> r is Ok && final(self).cells@ == old(self).cells@ && final(self).mailboxes == old(self).mailboxes && final(self).sched == old(self).sched && final(self).suspensions == old(self).suspensions && final(self).boundaries
                == old(self).boundaries && final(self).ssr_out == old(self).ssr_out,
            r matches Err(f) ==> f == Fatal::NoSuspenseBoundary || f == Fatal::HydrationMismatch,
            final(self).suspensions.entries@.len() == old(self).suspensions.entries@.len(),
            final(self).boundaries.list@.len() == old(self).boundaries.list@.len(),
            final(self).mailboxes@.len() >= old(self).mailboxes@.len(),
            forall|i: int|
                0 <= i < old(self).mailboxes@.len() && i != comp_id ==> final(self).mailboxes@[i]
                    == old(self).mailboxes@[i],
            seq_grows_from(
                (old(self).mailboxes@[comp_id as int])@,
                (final(self).mailboxes@[comp_id as int])@,
            ),
            old(self).cells@[comp_id as int] matches Some(st) ==> (final(self).cells@[comp_id as int] matches Some(st2) && st2.comp_id == st.comp_id && st2.component == st.component
                && st2.context == st.context && st2.pending_props == st.pending_props
                && st2.suspense_boundary == st.suspense_boundary),
    {
        let cell = self.take_cell(comp_id);
        match cell {
            None => {
                self.put_cell(comp_id, None);
                proof {
                    assert(self.cells@ =~= old(self).cells@);
                }
                Ok(())
            },
            Some(mut st) => {
                let (view_result, msgs) = st.component.view(&st.context);
                self.dispatch_messages(comp_id, msgs);
                let outcome = match view_result {
                    Ok(tree) => self.commit_render(&mut st, tree),
                    Err(RenderError::Suspended(susp)) => self.suspend_step(&mut st, susp),
                };
                self.put_cell(comp_id, Some(st));
                proof {
                    assert forall|i: int| 0 <= i < self.cells@.len() implies ((
                    #[trigger] self.cells@[i]) matches Some(cst) ==> (cst.comp_id == i
                        && cst.spec_wf(
                        self.cells@.len(),
                        self.boundaries.list@.len(),
                        self.suspensions.entries@.len(),
                    ))) by {}
                }
                outcome
            },
        }
    }

    /// Runs a creation unit: installs the component state if the cell is
    /// still vacant.  A second creation against an initialized cell is a
    /// no-op — the unit layer makes creation idempotent.
    pub fn run_create(&mut self, unit: CreateUnit<C::Properties>)
        requires
            old(self).spec_wf(),
            unit.comp_id < old(self).cells@.len(),
            unit.initial.spec_children_valid(old(self).cells@.len()),
            unit.suspense_boundary matches Some(b) ==> b < old(self).boundaries.list@.len(),
        ensures
            final(self).spec_wf(),
            final(self).cells@.len() == old(self).cells@.len(),
            forall|i: int|
                0 <= i < old(self).cells@.len() && i != unit.comp_id ==> final(self).cells@[i]
                    == old(self).cells@[i],
            old(self).cells@[unit.comp_id as int] is Some ==> final(self).cells@ == old(self).cells@ && final(self).mailboxes == old(self).mailboxes && final(self).sched == old(self).sched && final(self).suspensions == old(self).suspensions && final(self).boundaries
                == old(self).boundaries && final(self).ssr_out == old(self).ssr_out,
            old(self).cells@[unit.comp_id as int] is None ==> (final(self).cells@[unit.comp_id as int] matches Some(st) && st.comp_id == unit.comp_id && st.render_state == unit.initial
                && !st.has_rendered && st.pending_props is None && st.suspension is None
                && st.suspense_boundary == unit.suspense_boundary && st.context.props
                == unit.props && st.context.creation_mode == unit.initial.spec_mode()),
            old(self).cells@[unit.comp_id as int] is None ==> {
                &&& final(self).sched@ == (SchedulerLanes {
                    update: final(self).sched@.update,
                    ..old(self).sched@
                })
                &&& seq_grows_from(old(self).sched@.update, final(self).sched@.update)
                &&& forall|j: int|
                    old(self).sched@.update.len() <= j < final(self).sched@.update.len()
                        ==> final(self).sched@.update[j] == unit.comp_id
                &&& final(self).mailboxes@.len() == old(self).mailboxes@.len()
                &&& seq_grows_from(
                    (old(self).mailboxes@[unit.comp_id as int])@,
                    (final(self).mailboxes@[unit.comp_id as int])@,
                )
                &&& forall|i: int|
                    0 <= i < old(self).mailboxes@.len() && i != unit.comp_id ==> final(self).mailboxes@[i] == old(self).mailboxes@[i]
            },
            final(self).suspensions == old(self).suspensions,
            final(self).boundaries == old(self).boundaries,
            final(self).ssr_out == old(self).ssr_out,
    {
        let cell = self.take_cell(unit.comp_id);
        match cell {
            Some(st) => {
                self.put_cell(unit.comp_id, Some(st));
                proof {
                    assert(self.cells@ =~= old(self).cells@);
                }
            },
            None => {
                let CreateUnit { comp_id, props, initial, prepared_state, suspense_boundary } =
                    unit;
                let (st, msgs) = ComponentState::<C>::new(
                    comp_id,
                    initial,
                    props,
                    prepared_state,
                    suspense_boundary,
                );
                self.dispatch_messages(comp_id, msgs);
                self.put_cell(comp_id, Some(st));
                proof {
                    assert forall|i: int| 0 <= i < self.cells@.len() implies ((
                    #[trigger] self.cells@[i]) matches Some(cst) ==> (cst.comp_id == i
                        && cst.spec_wf(
                        self.cells@.len(),
                        self.boundaries.list@.len(),
                        self.suspensions.entries@.len(),
                    ))) by {
                        if i != comp_id {
                            assert(self.cells@[i] == old(self).cells@[i]);
                        }
                    }
                }
            },
        }
    }

    /// Runs a properties/sibling update unit.
    ///
    /// A supplied sibling position is propagated into the active render
    /// state first — siblings may have reordered even without a props
    /// change — and doing so against a server-render target is fatal.  In
    /// hydration mode, properties arriving before the first render are
    /// parked and the changed hook deferred; afterwards, parked or fresh
    /// properties are applied directly.  Applying properties downcasts
    /// them, swallows a mismatch as "no change", compares by value
    /// equality, and invokes the changed hook only on a real change.  A
    /// render is scheduled exactly when the hook asked for one.
    ///
    /// The ghost result reports what the hook-dependent path did: `None`
    /// when no changed hook ran, `Some(b)` when it ran and answered `b`.
    pub fn run_props_update(&mut self, unit: PropsUpdateUnit<C::Properties>) -> (r: (
        Result<(), Fatal>,
        Ghost<Option<bool>>,
    ))
        requires
            old(self).spec_wf(),
            unit.comp_id < old(self).cells@.len(),
        ensures
            final(self).spec_wf(),
            final(self).cells@.len() == old(self).cells@.len(),
            forall|i: int|
                0 <= i < old(self).cells@.len() && i != unit.comp_id ==> final(self).cells@[i]
                    == old(self).cells@[i],
            old(self).cells@[unit.comp_id as int] is None ==> r.0 is Ok && final(self).cells@
                == old(self).cells@ && final(self).mailboxes == old(self).mailboxes && final(self).sched == old(self).sched && final(self).suspensions == old(self).suspensions
                && final(self).boundaries == old(self).boundaries && final(self).ssr_out == old(self).ssr_out,
            final(self).suspensions == old(self).suspensions,
            final(self).boundaries == old(self).boundaries,
            final(self).ssr_out == old(self).ssr_out,
            old(self).cells@[unit.comp_id as int] matches Some(st) ==> {
                &&& (r.0 is Err <==> unit.next_sibling_slot is Some && st.render_state is Ssr)
                &&& (r.0 matches Err(f) ==> f == Fatal::SlotReassignedDuringServerRender
                    && final(self).cells@ == old(self).cells@ && final(self).sched == old(self).sched && final(self).mailboxes == old(self).mailboxes)
                &&& (final(self).cells@[unit.comp_id as int] matches Some(st2) && st2.comp_id
                    == st.comp_id && st2.render_state.spec_mode() == st.render_state.spec_mode()
                    && st2.has_rendered == st.has_rendered && st2.suspension == st.suspension
                    && st2.suspense_boundary == st.suspense_boundary)
                &&& (r.0 is Ok ==> (final(self).cells@[unit.comp_id as int] matches Some(st2)
                    && (unit.next_sibling_slot matches Some(slot) ==> st2.render_state
                    == st.render_state.spec_with_sibling_slot(slot)) && (unit.next_sibling_slot
                    is None ==> st2.render_state == st.render_state) && (r.1@ is None
                    ==> st2.component == st.component && st2.context == st.context) && (
                st.context.creation_mode != RenderMode::Hydration ==> st2.pending_props
                    == st.pending_props) && (st.context.creation_mode == RenderMode::Hydration
                    && st.has_rendered && (unit.props is Some || st.pending_props is Some)
                    ==> st2.pending_props is None) && (r.1@ is Some ==> (unit.props matches Some(
                    p,
                ) ==> st2.context == (Context { props: p, ..st.context }))) && (r.1@ is Some
                    && unit.props is None ==> (st.pending_props matches Some(parked)
                    && st2.context == (Context { props: parked, ..st.context })))))
                &&& (r.0 is Ok && st.context.creation_mode == RenderMode::Hydration
                    && !st.has_rendered ==> r.1@ is None && (final(self).cells@[unit.comp_id as int] matches Some(st2) && st2.component == st.component && st2.context == st.context
                    && (unit.props is Some ==> st2.pending_props == unit.props) && (unit.props
                    is None ==> st2.pending_props == st.pending_props)) && final(self).sched@
                    == old(self).sched@ && final(self).mailboxes == old(self).mailboxes)
                &&& (r.1@ is None && r.0 is Ok ==> final(self).sched@ == old(self).sched@
                    && final(self).mailboxes == old(self).mailboxes)
                &&& final(self).mailboxes@.len() == old(self).mailboxes@.len()
                &&& (forall|i: int|
                    0 <= i < old(self).mailboxes@.len() && i != unit.comp_id ==> final(self).mailboxes@[i] == old(self).mailboxes@[i])
                &&& seq_grows_from(
                    (old(self).mailboxes@[unit.comp_id as int])@,
                    (final(self).mailboxes@[unit.comp_id as int])@,
                )
                &&& (r.1@ matches Some(did) ==> (did && !old(self).sched@.render.contains(
                    unit.comp_id,
                ) ==> final(self).sched@.render == old(self).sched@.render.push(unit.comp_id)) && (
                did && old(self).sched@.render.contains(unit.comp_id) ==> final(self).sched@.render
                    == old(self).sched@.render) && (!did ==> final(self).sched@.render == old(self).sched@.render) && final(self).sched@ == (SchedulerLanes {
                    update: final(self).sched@.update,
                    render: final(self).sched@.render,
                    ..old(self).sched@
                }) && seq_grows_from(old(self).sched@.update, final(self).sched@.update))
            },
    {
        let cell = self.take_cell(unit.comp_id);
        match cell {
            None => {
                self.put_cell(unit.comp_id, None);
                proof {
                    assert(self.cells@ =~= old(self).cells@);
                }
                (Ok(()), Ghost(None))
            },
            Some(st) => {
                let PropsUpdateUnit { comp_id, props, next_sibling_slot } = unit;
                let ComponentState {
                    mut component,
                    mut context,
                    mut render_state,
                    has_rendered,
                    mut pending_props,
                    suspension,
                    suspense_boundary,
                    comp_id: own_id,
                } = st;
                match next_sibling_slot {
                    Some(slot) => {
                        let fatal = match &render_state {
                            RenderState::Ssr { .. } => true,
                            _ => false,
                        };
                        if fatal {
                            let st2 = ComponentState {
                                component,
                                context,
                                render_state,
                                has_rendered,
                                pending_props,
                                suspension,
                                suspense_boundary,
                                comp_id: own_id,
                            };
                            self.put_cell(comp_id, Some(st2));
                            proof {
                                assert(self.cells@ =~= old(self).cells@);
                            }
                            return (Err(Fatal::SlotReassignedDuringServerRender), Ghost(None));
                        }
                        render_state.shift_sibling(slot);
                    },
                    None => {},
                }
                let creation_mode = context.creation_mode;
                let mut applied: Option<bool> = None;
                let ghost mut verdict: Option<bool> = None;
                if creation_mode == RenderMode::Hydration {
                    let effective = match props {
                        Some(p) => Some(p),
                        None => pending_props.take(),
                    };
                    match effective {
                        Some(p) => {
                            if has_rendered {
                                pending_props = None;
                                let (did, v) = props_changed_hook::<C>(
                                    &mut component,
                                    &mut context,
                                    p,
                                );
                                match did {
                                    Some(msgs) => {
                                        proof {
                                            verdict = Some(v);
                                        }
                                        applied = Some(v);
                                        self.dispatch_messages(comp_id, msgs);
                                    },
                                    None => {},
                                }
                            } else {
                                pending_props = Some(p);
                            }
                        },
                        None => {},
                    }
                } else {
                    match props {
                        Some(p) => {
                            let (did, v) = props_changed_hook::<C>(&mut component, &mut context, p);
                            match did {
                                Some(msgs) => {
                                    proof {
                                        verdict = Some(v);
                                    }
                                    applied = Some(v);
                                    self.dispatch_messages(comp_id, msgs);
                                },
                                None => {},
                            }
                        },
                        None => {},
                    }
                }
                let schedule_render = match applied {
                    Some(did) => did,
                    None => false,
                };
                if schedule_render {
                    self.sched.push_render(comp_id);
                }
                let st2 = ComponentState {
                    component,
                    context,
                    render_state,
                    has_rendered,
                    pending_props,
                    suspension,
                    suspense_boundary,
                    comp_id: own_id,
                };
                self.put_cell(comp_id, Some(st2));
                proof {
                    assert forall|i: int| 0 <= i < self.cells@.len() implies ((
                    #[trigger] self.cells@[i]) matches Some(cst) ==> (cst.comp_id == i
                        && cst.spec_wf(
                        self.cells@.len(),
                        self.boundaries.list@.len(),
                        self.suspensions.entries@.len(),
                    ))) by {
                        if i != comp_id {
                            assert(self.cells@[i] == old(self).cells@[i]);
                        }
                    }
                }
                (Ok(()), Ghost(verdict))
            },
        }
    }

    /// Runs a post-commit effect unit.  The rendered hook is skipped
    /// entirely while a suspension is active: a suspended instance's
    /// visible output did not change, so the mounted/updated hook must not
    /// fire.  If hydration properties are parked, a properties update is
    /// queued to apply them.
    pub fn run_rendered(&mut self, unit: RenderedUnit)
        requires
            old(self).spec_wf(),
            unit.comp_id < old(self).cells@.len(),
        ensures
            final(self).spec_wf(),
            final(self).cells@.len() == old(self).cells@.len(),
            forall|i: int|
                0 <= i < old(self).cells@.len() && i != unit.comp_id ==> final(self).cells@[i]
                    == old(self).cells@[i],
            final(self).suspensions == old(self).suspensions,
            final(self).boundaries == old(self).boundaries,
            final(self).ssr_out == old(self).ssr_out,
            old(self).cells@[unit.comp_id as int] is None ==> final(self).cells@ == old(self).cells@ && final(self).mailboxes == old(self).mailboxes && final(self).sched == old(self).sched,
            old(self).cells@[unit.comp_id as int] matches Some(st) ==> {
                &&& (final(self).cells@[unit.comp_id as int] matches Some(st2) && st2.context
                    == st.context && st2.render_state == st.render_state && st2.has_rendered
                    == st.has_rendered && st2.suspension == st.suspension && st2.pending_props
                    == st.pending_props && st2.suspense_boundary == st.suspense_boundary
                    && st2.comp_id == st.comp_id && (st.suspension is Some ==> st2.component
                    == st.component))
                &&& (st.suspension is Some ==> final(self).mailboxes == old(self).mailboxes
                    && final(self).sched@.update == old(self).sched@.update)
                &&& (st.pending_props is Some ==> final(self).sched@.props_update == old(self).sched@.props_update.push(
                    PropsUpdateUnit {
                        comp_id: unit.comp_id,
                        props: None,
                        next_sibling_slot: None,
                    },
                ))
                &&& (st.pending_props is None ==> final(self).sched@.props_update == old(self).sched@.props_update)
                &&& final(self).sched@ == (SchedulerLanes {
                    props_update: final(self).sched@.props_update,
                    update: final(self).sched@.update,
                    ..old(self).sched@
                })
                &&& forall|i: int|
                    0 <= i < old(self).mailboxes@.len() && i != unit.comp_id ==> final(self).mailboxes@[i] == old(self).mailboxes@[i]
            },
    {
        let cell = self.take_cell(unit.comp_id);
        match cell {
            None => {
                self.put_cell(unit.comp_id, None);
                proof {
                    assert(self.cells@ =~= old(self).cells@);
                }
            },
            Some(st) => {
                let ComponentState {
                    mut component,
                    context,
                    render_state,
                    has_rendered,
                    pending_props,
                    suspension,
                    suspense_boundary,
                    comp_id: own_id,
                } = st;
                let suspended = suspension.is_some();
                if !suspended {
                    let msgs = component.rendered(&context, unit.first_render);
                    self.dispatch_messages(unit.comp_id, msgs);
                }
                let has_pending_props = pending_props.is_some();
                if has_pending_props {
                    self.sched.push_props_update(
                        PropsUpdateUnit {
                            comp_id: unit.comp_id,
                            props: None,
                            next_sibling_slot: None,
                        },
                    );
                }
                let st2 = ComponentState {
                    component,
                    context,
                    render_state,
                    has_rendered,
                    pending_props,
                    suspension,
                    suspense_boundary,
                    comp_id: own_id,
                };
                self.put_cell(unit.comp_id, Some(st2));
                proof {
                    assert forall|i: int| 0 <= i < self.cells@.len() implies ((
                    #[trigger] self.cells@[i]) matches Some(cst) ==> (cst.comp_id == i
                        && cst.spec_wf(
                        self.cells@.len(),
                        self.boundaries.list@.len(),
                        self.suspensions.entries@.len(),
                    ))) by {
                        if i != unit.comp_id {
                            assert(self.cells@[i] == old(self).cells@[i]);
                        }
                    }
                }
            },
        }
    }

    /// Runs a teardown unit: takes the state out of the cell for good,
    /// invokes the teardown hook, resumes any still-pending suspension so
    /// the boundary is never left waiting on a destroyed instance, and
    /// queues teardown for every mounted child of the render target.  A
    /// unit that finds the cell already empty is a silent no-op: no panic,
    /// no duplicate teardown.
    pub fn run_destroy(&mut self, unit: DestroyUnit)
        requires
            old(self).spec_wf(),
            unit.comp_id < old(self).cells@.len(),
        ensures
            final(self).spec_wf(),
            final(self).cells@.len() == old(self).cells@.len(),
            final(self).cells@[unit.comp_id as int] is None,
            forall|i: int|
                0 <= i < old(self).cells@.len() && i != unit.comp_id ==> final(self).cells@[i]
                    == old(self).cells@[i],
            final(self).suspensions == old(self).suspensions,
            final(self).ssr_out == old(self).ssr_out,
            old(self).cells@[unit.comp_id as int] is None ==> final(self).cells@ == old(self).cells@ && final(self).mailboxes == old(self).mailboxes && final(self).sched == old(self).sched && final(self).boundaries == old(self).boundaries,
            old(self).cells@[unit.comp_id as int] matches Some(st) ==> {
                &&& (st.suspension matches Some(s) ==> (st.suspense_boundary matches Some(b)
                    && final(self).boundaries.list@[b as int].pending@ == old(self).boundaries.list@[b as int].pending@.remove_value(s.id) && (forall|i: int|
                    0 <= i < old(self).boundaries.list@.len() && i != b ==> final(self).boundaries.list@[i] == old(self).boundaries.list@[i])))
                &&& (st.suspension is None ==> final(self).boundaries == old(self).boundaries)
                &&& (st.render_state matches RenderState::Render { bundle, .. } ==> final(self).sched@.destroy == old(self).sched@.destroy + spec_child_destroys(
                    bundle.nodes@,
                    unit.parent_to_detach,
                ))
                &&& (!(st.render_state is Render) ==> final(self).sched@.destroy == old(self).sched@.destroy)
                &&& final(self).sched@ == (SchedulerLanes {
                    destroy: final(self).sched@.destroy,
                    update: final(self).sched@.update,
                    ..old(self).sched@
                })
                &&& forall|i: int|
                    0 <= i < old(self).mailboxes@.len() && i != unit.comp_id ==> final(self).mailboxes@[i] == old(self).mailboxes@[i]
            },
    {
        let cell = self.take_cell(unit.comp_id);
        match cell {
            None => {
                self.put_cell(unit.comp_id, None);
                proof {
                    assert(self.cells@ =~= old(self).cells@);
                }
            },
            Some(st) => {
                let ComponentState {
                    mut component,
                    context,
                    render_state,
                    has_rendered: _,
                    pending_props: _,
                    suspension,
                    suspense_boundary,
                    comp_id: _,
                } = st;
                let msgs = component.destroy(&context);
                self.dispatch_messages(unit.comp_id, msgs);
                match suspension {
                    Some(s) => {
                        match suspense_boundary {
                            Some(b) => {
                                self.boundaries.resume(b, s);
                            },
                            None => {
                                proof {
                                    assert(false);
                                }
                            },
                        }
                    },
                    None => {},
                }
                proof {
                    assert forall|i: int| 0 <= i < self.cells@.len() implies ((
                    #[trigger] self.cells@[i]) matches Some(cst) ==> (cst.comp_id == i
                        && cst.spec_wf(
                        self.cells@.len(),
                        self.boundaries.list@.len(),
                        self.suspensions.entries@.len(),
                    ))) by {
                        if i != unit.comp_id {
                            assert(self.cells@[i] == old(self).cells@[i]);
                        }
                    }
                }
                match render_state {
                    RenderState::Render { bundle, .. } => {
                        let ghost pre_destroy = self.sched@.destroy;
                        let mut remaining = bundle.nodes;
                        let ghost orig_nodes = remaining@;
                        while remaining.len() > 0
                            invariant
                                old(self).spec_wf(),
                                self.spec_wf(),
                                forall|i: int|
                                    0 <= i < remaining@.len() ==> ((
                                    #[trigger] remaining@[i]) matches BNode::Child(id) ==> id
                                        < self.cells@.len()),
                                self.sched@.destroy + spec_child_destroys(
                                    remaining@,
                                    unit.parent_to_detach,
                                ) == pre_destroy + spec_child_destroys(
                                    orig_nodes,
                                    unit.parent_to_detach,
                                ),
                                self.sched@ == (SchedulerLanes {
                                    destroy: self.sched@.destroy,
                                    ..old(self).sched@
                                }) || self.sched@ == (SchedulerLanes {
                                    destroy: self.sched@.destroy,
                                    update: self.sched@.update,
                                    ..old(self).sched@
                                }),
                                self.cells@ == old(self).cells@.update(
                                    unit.comp_id as int,
                                    None::<ComponentState<C>>,
                                ),
                                self.mailboxes@.len() == old(self).mailboxes@.len(),
                                forall|i: int|
                                    0 <= i < old(self).mailboxes@.len() && i != unit.comp_id
                                        ==> self.mailboxes@[i] == old(self).mailboxes@[i],
                                self.suspensions == old(self).suspensions,
                                self.boundaries.list@.len() == old(self).boundaries.list@.len(),
                                st.suspension is None ==> self.boundaries == old(self).boundaries,
                                st.suspension matches Some(s) ==> (st.suspense_boundary
                                    matches Some(b) ==> (self.boundaries.list@[b as int].pending@
                                    == old(self).boundaries.list@[b as int].pending@.remove_value(
                                    s.id,
                                ) && (forall|i: int|
                                    0 <= i < old(self).boundaries.list@.len() && i != b
                                        ==> self.boundaries.list@[i] == old(
                                        self,
                                    ).boundaries.list@[i]))),
                                self.ssr_out == old(self).ssr_out,
                            decreases remaining@.len(),
                        {
                            let ghost pre_remaining = remaining@;
                            let ghost pre_lane = self.sched@.destroy;
                            let node = remaining.remove(0);
                            proof {
                                assert(remaining@ =~= pre_remaining.drop_first());
                            }
                            match node {
                                BNode::Child(id) => {
                                    self.sched.push_destroy(
                                        DestroyUnit {
                                            comp_id: id,
                                            parent_to_detach: unit.parent_to_detach,
                                        },
                                    );
                                    proof {
                                        assert(self.sched@.destroy + spec_child_destroys(
                                            remaining@,
                                            unit.parent_to_detach,
                                        ) =~= pre_lane + spec_child_destroys(
                                            pre_remaining,
                                            unit.parent_to_detach,
                                        ));
                                    }
                                },
                                BNode::Text(_) => {
                                    proof {
                                        assert(self.sched@.destroy + spec_child_destroys(
                                            remaining@,
                                            unit.parent_to_detach,
                                        ) =~= pre_lane + spec_child_destroys(
                                            pre_remaining,
                                            unit.parent_to_detach,
                                        ));
                                    }
                                },
                            }
                        }
                        proof {
                            assert(self.sched@.destroy =~= pre_destroy + spec_child_destroys(
                                orig_nodes,
                                unit.parent_to_detach,
                            ));
                        }
                    },
                    RenderState::Hydration { .. } => {},
                    RenderState::Ssr { .. } => {},
                }
            },
        }
    }

    /// Drives the queue, executing one unit of work at a time, each
    /// against its target cell exclusively, until the queue is empty or
    /// `max_units` units have run — components may queue work forever, so
    /// the embedder bounds each drive.  Stops at the first fatal fault and
    /// hands it to the embedder.  `Ok(true)` says every lane is empty;
    /// control returns without blocking — a pending suspension resolves
    /// only via an explicit external signal.
    pub fn run(&mut self, max_units: u64) -> (r: Result<bool, Fatal>)
        requires
            old(self).spec_wf(),
        ensures
            final(self).spec_wf(),
            r == Ok::<bool, Fatal>(true) ==> final(self).sched@.spec_is_idle(),
    {
        let _ = self.sched.clear_woken();
        let mut budget: u64 = max_units;
        loop
            invariant
                self.spec_wf(),
            decreases budget,
        {
            if budget == 0 {
                return Ok(self.sched.is_idle());
            }
            budget = budget - 1;
            let next = self.sched.next_unit();
            match next {
                None => {
                    return Ok(true);
                },
                Some(unit) => {
                    match unit {
                        SchedUnit::Create(u) => {
                            self.run_create(u);
                        },
                        SchedUnit::Update(id) => {
                            let _ = self.run_update(id);
                        },
                        SchedUnit::PropsUpdate(u) => {
                            let (res, _) = self.run_props_update(u);
                            match res {
                                Ok(()) => {},
                                Err(f) => {
                                    return Err(f);
                                },
                            }
                        },
                        SchedUnit::Render(id) => {
                            match self.run_render(id) {
                                Ok(()) => {},
                                Err(f) => {
                                    return Err(f);
                                },
                            }
                        },
                        SchedUnit::Rendered(u) => {
                            self.run_rendered(u);
                        },
                        SchedUnit::Destroy(u) => {
                            self.run_destroy(u);
                        },
                    }
                },
            }
        }
    }
}

/// The teardown units that detaching a render target queues for its
/// mounted children, in sibling order, each carrying the detach-skip flag
/// of the parent's own teardown.
pub open spec fn spec_child_destroys(nodes: Seq<BNode>, parent_to_detach: bool) -> Seq<DestroyUnit>
    decreases nodes.len(),
{
    if nodes.len() == 0 {
        Seq::empty()
    } else {
        let rest = spec_child_destroys(nodes.drop_first(), parent_to_detach);
        match nodes[0] {
            BNode::Child(id) => seq![DestroyUnit { comp_id: id, parent_to_detach }] + rest,
            BNode::Text(_) => rest,
        }
    }
}

/// The properties updates a reconciliation queues, in sibling order: one
/// for each child descriptor standing over a position-matched mounted
/// child, carrying the child's id and the new properties.
pub open spec fn spec_reconcile_props_updates<P>(prior: Seq<BNode>, tree: Seq<VNode<P>>) -> Seq<
    PropsUpdateUnit<P>,
>
    decreases tree.len(),
{
    if tree.len() == 0 {
        Seq::empty()
    } else {
        let prior_rest = if prior.len() > 0 {
            prior.drop_first()
        } else {
            prior
        };
        let rest = spec_reconcile_props_updates(prior_rest, tree.drop_first());
        match tree[0] {
            VNode::Child(p) => if prior.len() > 0 {
                match prior[0] {
                    BNode::Child(id) => seq![
                        PropsUpdateUnit { comp_id: id, props: Some(p), next_sibling_slot: None },
                    ] + rest,
                    BNode::Text(_) => rest,
                }
            } else {
                rest
            },
            VNode::Text(_) => rest,
        }
    }
}

/// The teardowns a reconciliation queues, in sibling order: one for each
/// mounted child displaced by a text node, then one for each child left
/// beyond the new tree's length.
pub open spec fn spec_reconcile_destroys<P>(prior: Seq<BNode>, tree: Seq<VNode<P>>) -> Seq<
    DestroyUnit,
>
    decreases tree.len(),
{
    if tree.len() == 0 {
        spec_child_destroys(prior, false)
    } else {
        let prior_rest = if prior.len() > 0 {
            prior.drop_first()
        } else {
            prior
        };
        let rest = spec_reconcile_destroys(prior_rest, tree.drop_first());
        match tree[0] {
            VNode::Text(_) => if prior.len() > 0 {
                match prior[0] {
                    BNode::Child(id) => seq![
                        DestroyUnit { comp_id: id, parent_to_detach: false },
                    ] + rest,
                    BNode::Text(_) => rest,
                }
            } else {
                rest
            },
            VNode::Child(_) => rest,
        }
    }
}

} // verus!
