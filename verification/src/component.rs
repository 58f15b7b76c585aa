//! The component capability: user-defined lifecycle logic, and the context
//! handed to every lifecycle hook.

use vstd::prelude::*;

use crate::dom::VNode;
use crate::suspension::Suspension;

verus! {

/// How an instance was created.
#[derive(Clone, Copy, Debug, PartialEq, Eq, Structural)]
pub enum RenderMode {
    /// Live rendering into a container.
    Render,
    /// Attaching to pre-rendered markup.
    Hydration,
    /// Single-shot server string rendering.
    Ssr,
}

/// The non-local outcome of view production: a control signal, not a
/// generic failure.
#[derive(Clone, Copy, Debug, PartialEq, Eq, Structural)]
pub enum RenderError {
    /// The view cannot be produced until the carried suspension resolves.
    Suspended(Suspension),
}

/// What a view hook produces: a view tree, or the suspension signal.
pub type HtmlResult<P> = Result<Vec<VNode<P>>, RenderError>;

/// The context bundled with every lifecycle hook invocation: the current
/// properties, the instance's identity, its creation mode, and the optional
/// pre-hydration state blob.
pub struct Context<P> {
    /// The instance's properties; shared and immutable per render.
    pub props: P,
    /// The stable identity of the instance.
    pub comp_id: usize,
    /// How the instance was created.  Never changes.
    pub creation_mode: RenderMode,
    /// State prepared ahead of hydration, if any.
    pub prepared_state: Option<String>,
}

/// User component logic: the capability every component type implements.
///
/// All hooks are contractually infallible; the engine promises nothing about
/// what a hook computes, only about when it runs.  A hook requests further
/// work by returning messages addressed to its own instance; the engine
/// queues each one and schedules an update unit for it, never invoking
/// another unit synchronously.
pub trait Component: Sized {
    /// The message type folded through the update hook.
    type Message;

    /// The properties type; compared by value equality when props change.
    type Properties;

    /// Builds the component from its initial context.
    fn create(ctx: &Context<Self::Properties>) -> (Self, Vec<Self::Message>);

    /// Produces the view tree, or signals suspension.
    fn view(&self, ctx: &Context<Self::Properties>) -> (
        HtmlResult<Self::Properties>,
        Vec<Self::Message>,
    );

    /// Folds one message; the boolean asks for a re-render.
    fn update(&mut self, ctx: &Context<Self::Properties>, msg: Self::Message) -> (
        bool,
        Vec<Self::Message>,
    );

    /// Reacts to a property change; the boolean asks for a re-render.  The
    /// context already carries the new properties.
    fn changed(&mut self, ctx: &Context<Self::Properties>, old_props: &Self::Properties) -> (
        bool,
        Vec<Self::Message>,
    );

    /// Runs after a commit: `first_render` exactly once, on the first one.
    fn rendered(&mut self, ctx: &Context<Self::Properties>, first_render: bool) -> Vec<
        Self::Message,
    >;

    /// Tears the component down.
    fn destroy(&mut self, ctx: &Context<Self::Properties>) -> Vec<Self::Message>;

    /// Whether the given properties are of this component's concrete
    /// properties kind.  This is the failure-safe downcast of the type-erased
    /// properties delivery: a mismatch is swallowed as "no change", never
    /// escalated.
    fn accepts_props(&self, props: &Self::Properties) -> bool;

    /// Value equality of two properties values, as the component defines it.
    fn props_eq(a: &Self::Properties, b: &Self::Properties) -> bool;
}

} // verus!
