//! Per-instance lifecycle state: the active render backend and the
//! component cell contents.

use vstd::prelude::*;

use crate::component::{Component, Context, RenderMode};
use crate::dom::{BNode, Bundle, Fragment, Slot};
use crate::suspension::Suspension;

verus! {

/// The instance's active render backend.  Exactly one variant is live per
/// instance, and the only legal transition is `Hydration` to `Render`,
/// triggered by the first successful render.
pub enum RenderState {
    /// Live-tree mutation: a realized render target inside a container.
    Render {
        /// The realized render target.
        bundle: Bundle,
        /// The container holding the instance's output.
        parent: u32,
        /// The position in front of the next sibling.
        sibling_slot: Slot,
        /// The position in front of this instance's own output; adjusted on
        /// every re-render.
        own_slot: Slot,
    },
    /// Hydration of pre-rendered markup.
    Hydration {
        /// The not-yet-claimed pre-rendered nodes.
        fragment: Fragment,
        /// The container holding the markup.
        parent: u32,
        /// The position in front of the next sibling.
        sibling_slot: Slot,
        /// The position in front of this instance's own output.
        own_slot: Slot,
    },
    /// Single-shot server rendering through a one-shot completion channel.
    Ssr {
        /// Whether the completion channel can still be used.  It is consumed
        /// exactly once.
        sender: bool,
    },
}

impl RenderState {
    /// The creation mode a fresh instance derives from its initial render
    /// state.
    pub open spec fn spec_mode(self) -> RenderMode {
        match self {
            RenderState::Render { .. } => RenderMode::Render,
            RenderState::Hydration { .. } => RenderMode::Hydration,
            RenderState::Ssr { .. } => RenderMode::Ssr,
        }
    }

    /// Every mounted child named by the render target exists among the
    /// runtime's `n_cells` component cells.
    pub open spec fn spec_children_valid(self, n_cells: nat) -> bool {
        self matches RenderState::Render { bundle, .. } ==> forall|i: int|
            0 <= i < bundle.nodes@.len() ==> (#[trigger] bundle.nodes@[i] matches BNode::Child(id)
                ==> id < n_cells)
    }

    /// Exec mirror of [`RenderState::spec_mode`].
    pub fn mode(&self) -> (m: RenderMode)
        ensures
            m == self.spec_mode(),
    {
        match self {
            RenderState::Render { .. } => RenderMode::Render,
            RenderState::Hydration { .. } => RenderMode::Hydration,
            RenderState::Ssr { .. } => RenderMode::Ssr,
        }
    }

    /// The same render state with its sibling position replaced.  A
    /// server-render target has no position, so it is returned as it is.
    pub open spec fn spec_with_sibling_slot(self, next_slot: Slot) -> RenderState {
        match self {
            RenderState::Render { bundle, parent, own_slot, .. } => RenderState::Render {
                bundle,
                parent,
                sibling_slot: next_slot,
                own_slot,
            },
            RenderState::Hydration { fragment, parent, own_slot, .. } => RenderState::Hydration {
                fragment,
                parent,
                sibling_slot: next_slot,
                own_slot,
            },
            RenderState::Ssr { sender } => RenderState::Ssr { sender },
        }
    }

    /// Reassigns only the sibling position: siblings may have reordered
    /// even without a props change.  A server-render target has no
    /// position: the caller keeps such instances out.
    pub fn shift_sibling(&mut self, next_slot: Slot)
        requires
            !(*old(self) is Ssr),
        ensures
            *final(self) == old(self).spec_with_sibling_slot(next_slot),
    {
        match self {
            RenderState::Render { sibling_slot, .. } => {
                *sibling_slot = next_slot;
            },
            RenderState::Hydration { sibling_slot, .. } => {
                *sibling_slot = next_slot;
            },
            RenderState::Ssr { .. } => {},
        }
    }

    /// Moves the instance's output under a new container, in front of a new
    /// sibling position.  Siblings may reorder even without a props change.
    /// A server-render target has no position to move: the caller keeps such
    /// instances out.
    pub fn shift(&mut self, next_parent: u32, next_slot: Slot)
        requires
            !(*old(self) is Ssr),
        ensures
            match *old(self) {
                RenderState::Render { bundle, own_slot, .. } => *final(self)
                    == (RenderState::Render {
                    bundle,
                    parent: next_parent,
                    sibling_slot: next_slot,
                    own_slot,
                }),
                RenderState::Hydration { fragment, own_slot, .. } => *final(self)
                    == (RenderState::Hydration {
                    fragment,
                    parent: next_parent,
                    sibling_slot: next_slot,
                    own_slot,
                }),
                RenderState::Ssr { .. } => false,
            },
    {
        match self {
            RenderState::Render { parent, sibling_slot, .. } => {
                *parent = next_parent;
                *sibling_slot = next_slot;
            },
            RenderState::Hydration { parent, sibling_slot, .. } => {
                *parent = next_parent;
                *sibling_slot = next_slot;
            },
            RenderState::Ssr { .. } => {},
        }
    }
}

/// The state owned by one component instance's lifecycle cell.
pub struct ComponentState<C: Component> {
    /// The component's own logic and private state.
    pub component: C,
    /// The context handed to every hook invocation.
    pub context: Context<C::Properties>,
    /// The active render backend.
    pub render_state: RenderState,
    /// Whether a first render has committed.
    pub has_rendered: bool,
    /// Properties parked during hydration until the first render commits.
    pub pending_props: Option<C::Properties>,
    /// The at most one active suspension of this instance.
    pub suspension: Option<Suspension>,
    /// The nearest ancestor suspense boundary, if one is reachable.
    pub suspense_boundary: Option<usize>,
    /// The stable identity of the instance.
    pub comp_id: usize,
}

impl<C: Component> ComponentState<C> {
    /// Well-formedness of a cell's state against the runtime it lives in:
    /// every tracked handle points into the runtime's collections, the
    /// render-state variant is consistent with the creation mode up to the
    /// allowed hydration-to-render transition, a hydrating instance has not
    /// rendered yet, only hydration parks pending properties, and a tracked
    /// suspension implies a reachable boundary.
    pub open spec fn spec_wf(self, n_cells: nat, n_boundaries: nat, n_suspensions: nat) -> bool {
        &&& self.suspension is Some ==> self.suspense_boundary is Some
        &&& self.suspense_boundary matches Some(b) ==> b < n_boundaries
        &&& self.suspension matches Some(s) ==> s.id < n_suspensions
        &&& self.render_state.spec_children_valid(n_cells)
        &&& match self.context.creation_mode {
            RenderMode::Render => self.render_state is Render,
            RenderMode::Hydration => self.render_state is Hydration || self.render_state
                is Render,
            RenderMode::Ssr => self.render_state is Ssr,
        }
        &&& self.render_state is Hydration ==> !self.has_rendered
        &&& self.context.creation_mode != RenderMode::Hydration ==> self.pending_props is None
    }

    /// Builds the context, invokes the component factory, and assembles the
    /// fresh cell state.  Returns the state together with the messages the
    /// factory dispatched.
    pub fn new(
        comp_id: usize,
        initial: RenderState,
        props: C::Properties,
        prepared_state: Option<String>,
        suspense_boundary: Option<usize>,
    ) -> (r: (ComponentState<C>, Vec<C::Message>))
        ensures
            r.0.context.props == props,
            r.0.context.comp_id == comp_id,
            r.0.context.creation_mode == initial.spec_mode(),
            r.0.render_state == initial,
            !r.0.has_rendered,
            r.0.pending_props is None,
            r.0.suspension is None,
            r.0.suspense_boundary == suspense_boundary,
            r.0.comp_id == comp_id,
    {
        let creation_mode = initial.mode();
        let context = Context {
            props,
            comp_id,
            creation_mode,
            prepared_state,
        };
        let (component, messages) = C::create(&context);
        let state = ComponentState {
            component,
            context,
            render_state: initial,
            has_rendered: false,
            pending_props: None,
            suspension: None,
            suspense_boundary,
            comp_id,
        };
        (state, messages)
    }
}

} // verus!
