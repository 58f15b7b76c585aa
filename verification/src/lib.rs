//! A per-instance component lifecycle engine for a declarative UI rendering
//! system.
//!
//! The engine manages creation, message-driven updates, view production,
//! committed rendering, post-render effects, asynchronous suspension, prop
//! reconciliation, hydration-to-live transition, and teardown for component
//! instances.  Components are user logic implementing the [`Component`]
//! capability; the engine executes discrete units of work against each
//! instance's lifecycle cell, one at a time, under a cooperative scheduler.
//!
//! [`Component`]: component::Component

use vstd::prelude::*;

mod boundary;
mod component;
mod dom;
mod laws;
mod runtime;
mod scheduler;
mod state;
mod suspension;

pub use boundary::{Boundaries, Boundary};
pub use component::{Component, Context, HtmlResult, RenderError, RenderMode};
pub use dom::{
    spec_is_whitespace_byte, spec_is_whitespace_text, spec_trimmed, BNode, Bundle, FNode,
    Fragment, Slot, VNode,
};
pub use laws::{lemma_elevated_render_precedes_normal, lemma_one_render_per_batch};
pub use runtime::{
    flush_batch, seq_extended_with, seq_grows_from, spec_child_destroys, spec_consumed,
    spec_pending_after_suspend, spec_realizes, spec_reconcile_destroys,
    spec_reconcile_props_updates, Runtime, SsrDelivery,
};
pub use scheduler::{
    CreateUnit, DestroyUnit, PropsUpdateUnit, RenderedUnit, SchedUnit, Scheduler, SchedulerLanes,
};
pub use state::{ComponentState, RenderState};
pub use suspension::{Suspension, SuspensionEntry, Suspensions};

verus! {

/// An unrecoverable lifecycle fault.
///
/// The engine never continues past one of these: the run loop stops and hands
/// the fault to the embedder, so that none of them can pass silently.
#[derive(Clone, Copy, Debug, PartialEq, Eq, Structural)]
pub enum Fatal {
    /// A view suspended while no suspense boundary is reachable from the
    /// instance.  Suspending outside a boundary is a construction-time
    /// programming mistake, not a runtime condition to recover from.
    NoSuspenseBoundary,
    /// After merging the committed view tree, the pre-rendered fragment of a
    /// hydrating instance was not fully consumed: the server and client trees
    /// have diverged.
    HydrationMismatch,
    /// A sibling-position reassignment was attempted against a server-render
    /// target, which has no position to track.
    SlotReassignedDuringServerRender,
}

} // verus!
