//! The cooperative scheduler: a priority-lane queue of units of work plus a
//! wake primitive.
//!
//! Each unit executes at most once, against one component's lifecycle cell.
//! Units are value-enqueued, never invoked synchronously from another unit.
//! Lane priority, from first served to last: destroy, create, props update,
//! first render, first-render effects, update, render, render effects.  The
//! two effect lanes are drained newest-first, so children's effects run
//! before their parents'; the render lane holds at most one pending render
//! per component, which is what bounds a batch of updates to one physical
//! render.

use vstd::prelude::*;

use crate::dom::Slot;
use crate::state::RenderState;

verus! {

/// A queued creation: installs a component cell if it is still absent.
pub struct CreateUnit<P> {
    /// The target cell.
    pub comp_id: usize,
    /// The initial properties.
    pub props: P,
    /// The initial render backend.
    pub initial: RenderState,
    /// The pre-hydration state blob, if any.
    pub prepared_state: Option<String>,
    /// The nearest ancestor suspense boundary, if any.
    pub suspense_boundary: Option<usize>,
}

/// A queued properties/sibling update.
pub struct PropsUpdateUnit<P> {
    /// The target cell.
    pub comp_id: usize,
    /// New properties, or `None` to re-deliver parked hydration properties.
    pub props: Option<P>,
    /// A new sibling position, if siblings may have reordered.
    pub next_sibling_slot: Option<Slot>,
}

/// A queued post-commit effect.
#[derive(Clone, Copy, Debug, PartialEq, Eq, Structural)]
pub struct RenderedUnit {
    /// The target cell.
    pub comp_id: usize,
    /// Whether the commit it follows was the instance's first.
    pub first_render: bool,
}

/// A queued teardown.
#[derive(Clone, Copy, Debug, PartialEq, Eq, Structural)]
pub struct DestroyUnit {
    /// The target cell.
    pub comp_id: usize,
    /// Whether the instance's parent container is itself being removed
    /// wholesale, letting the detach step be skipped.
    pub parent_to_detach: bool,
}

/// One unit of work, as handed out by the scheduler.
pub enum SchedUnit<P> {
    /// Install a cell.
    Create(CreateUnit<P>),
    /// Flush queued messages.
    Update(usize),
    /// Deliver properties or a sibling position.
    PropsUpdate(PropsUpdateUnit<P>),
    /// Produce and commit a view.
    Render(usize),
    /// Run the post-commit effect.
    Rendered(RenderedUnit),
    /// Tear a cell down.
    Destroy(DestroyUnit),
}

/// The scheduler's queue contents, as mathematical sequences.
#[verifier::ext_equal]
pub struct SchedulerLanes<P> {
    /// Teardowns, served first, oldest first.
    pub destroy: Seq<DestroyUnit>,
    /// Creations, oldest first.
    pub create: Seq<CreateUnit<P>>,
    /// Properties updates, oldest first.
    pub props_update: Seq<PropsUpdateUnit<P>>,
    /// The elevated render lane: first renders and hydration follow-ups.
    pub render_first: Seq<usize>,
    /// First-render effects, drained newest first.
    pub rendered_first: Seq<RenderedUnit>,
    /// Message flushes, oldest first.
    pub update: Seq<usize>,
    /// The normal render lane; at most one entry per component.
    pub render: Seq<usize>,
    /// Later-render effects, drained newest first.
    pub rendered: Seq<RenderedUnit>,
    /// Whether the wake primitive has been pulled since the last run.
    pub woken: bool,
}

/// The priority-lane queue.
pub struct Scheduler<P> {
    destroy: Vec<DestroyUnit>,
    create: Vec<CreateUnit<P>>,
    props_update: Vec<PropsUpdateUnit<P>>,
    render_first: Vec<usize>,
    rendered_first: Vec<RenderedUnit>,
    update: Vec<usize>,
    render: Vec<usize>,
    rendered: Vec<RenderedUnit>,
    woken: bool,
}

impl<P> View for Scheduler<P> {
    type V = SchedulerLanes<P>;

    closed spec fn view(&self) -> SchedulerLanes<P> {
        SchedulerLanes {
            destroy: self.destroy@,
            create: self.create@,
            props_update: self.props_update@,
            render_first: self.render_first@,
            rendered_first: self.rendered_first@,
            update: self.update@,
            render: self.render@,
            rendered: self.rendered@,
            woken: self.woken,
        }
    }
}

impl<P> SchedulerLanes<P> {
    /// No unit is queued.
    pub open spec fn spec_is_idle(self) -> bool {
        &&& self.destroy.len() == 0
        &&& self.create.len() == 0
        &&& self.props_update.len() == 0
        &&& self.render_first.len() == 0
        &&& self.rendered_first.len() == 0
        &&& self.update.len() == 0
        &&& self.render.len() == 0
        &&& self.rendered.len() == 0
    }

    /// The render lane holds at most one pending render per component, so
    /// however many updates asked for a re-render before the render unit
    /// ran, at most one physical render executes for the batch.
    pub open spec fn spec_render_lane_unique(self) -> bool {
        forall|i: int, j: int|
            0 <= i < j < self.render.len() ==> self.render[i] != self.render[j]
    }

    /// The unit the scheduler hands out next: the head of the first
    /// non-empty lane in priority order (the effect lanes serve their
    /// newest entry).
    pub open spec fn spec_next(self) -> Option<SchedUnit<P>> {
        if self.destroy.len() > 0 {
            Some(SchedUnit::Destroy(self.destroy[0]))
        } else if self.create.len() > 0 {
            Some(SchedUnit::Create(self.create[0]))
        } else if self.props_update.len() > 0 {
            Some(SchedUnit::PropsUpdate(self.props_update[0]))
        } else if self.render_first.len() > 0 {
            Some(SchedUnit::Render(self.render_first[0]))
        } else if self.rendered_first.len() > 0 {
            Some(SchedUnit::Rendered(self.rendered_first.last()))
        } else if self.update.len() > 0 {
            Some(SchedUnit::Update(self.update[0]))
        } else if self.render.len() > 0 {
            Some(SchedUnit::Render(self.render[0]))
        } else if self.rendered.len() > 0 {
            Some(SchedUnit::Rendered(self.rendered.last()))
        } else {
            None
        }
    }

    /// The queue contents after the next unit is handed out.
    pub open spec fn spec_after_next(self) -> SchedulerLanes<P> {
        if self.destroy.len() > 0 {
            SchedulerLanes { destroy: self.destroy.drop_first(), ..self }
        } else if self.create.len() > 0 {
            SchedulerLanes { create: self.create.drop_first(), ..self }
        } else if self.props_update.len() > 0 {
            SchedulerLanes { props_update: self.props_update.drop_first(), ..self }
        } else if self.render_first.len() > 0 {
            SchedulerLanes { render_first: self.render_first.drop_first(), ..self }
        } else if self.rendered_first.len() > 0 {
            SchedulerLanes { rendered_first: self.rendered_first.drop_last(), ..self }
        } else if self.update.len() > 0 {
            SchedulerLanes { update: self.update.drop_first(), ..self }
        } else if self.render.len() > 0 {
            SchedulerLanes { render: self.render.drop_first(), ..self }
        } else if self.rendered.len() > 0 {
            SchedulerLanes { rendered: self.rendered.drop_last(), ..self }
        } else {
            self
        }
    }

    /// Every queued unit targets one of `n` component cells.
    pub open spec fn spec_targets_valid(self, n: nat) -> bool {
        &&& forall|i: int| 0 <= i < self.destroy.len() ==> self.destroy[i].comp_id < n
        &&& forall|i: int| 0 <= i < self.create.len() ==> self.create[i].comp_id < n
        &&& forall|i: int|
            0 <= i < self.props_update.len() ==> self.props_update[i].comp_id < n
        &&& forall|i: int| 0 <= i < self.render_first.len() ==> self.render_first[i] < n
        &&& forall|i: int|
            0 <= i < self.rendered_first.len() ==> self.rendered_first[i].comp_id < n
        &&& forall|i: int| 0 <= i < self.update.len() ==> self.update[i] < n
        &&& forall|i: int| 0 <= i < self.render.len() ==> self.render[i] < n
        &&& forall|i: int| 0 <= i < self.rendered.len() ==> self.rendered[i].comp_id < n
    }
}

impl<P> Scheduler<P> {
    /// An empty queue.
    pub fn new() -> (r: Scheduler<P>)
        ensures
            r@.spec_is_idle(),
            !r@.woken,
            r@.spec_render_lane_unique(),
    {
        Scheduler {
            destroy: Vec::new(),
            create: Vec::new(),
            props_update: Vec::new(),
            render_first: Vec::new(),
            rendered_first: Vec::new(),
            update: Vec::new(),
            render: Vec::new(),
            rendered: Vec::new(),
            woken: false,
        }
    }

    /// Enqueues a teardown.
    pub fn push_destroy(&mut self, unit: DestroyUnit)
        ensures
            final(self)@ == (SchedulerLanes { destroy: old(self)@.destroy.push(unit), ..old(self)@ }),
    {
        self.destroy.push(unit);
    }

    /// Enqueues a creation.
    pub fn push_create(&mut self, unit: CreateUnit<P>)
        ensures
            final(self)@ == (SchedulerLanes { create: old(self)@.create.push(unit), ..old(self)@ }),
    {
        self.create.push(unit);
    }

    /// Enqueues a properties/sibling update.
    pub fn push_props_update(&mut self, unit: PropsUpdateUnit<P>)
        ensures
            final(self)@ == (SchedulerLanes { props_update: old(self)@.props_update.push(
                unit,
            ), ..old(self)@ }),
    {
        self.props_update.push(unit);
    }

    /// Enqueues a message flush.
    pub fn push_update(&mut self, comp_id: usize)
        ensures
            final(self)@ == (SchedulerLanes { update: old(self)@.update.push(comp_id), ..old(self)@ }),
    {
        self.update.push(comp_id);
    }

    /// Enqueues a render on the elevated lane, ahead of every
    /// normal-priority render.
    pub fn push_render_first(&mut self, comp_id: usize)
        ensures
            final(self)@ == (SchedulerLanes { render_first: old(self)@.render_first.push(
                comp_id,
            ), ..old(self)@ }),
    {
        self.render_first.push(comp_id);
    }

    /// Enqueues a render on the normal lane.  If the component already has
    /// one pending there, the queue is left as it is: re-render scheduling
    /// is driven solely by the flush result, and one render serves the
    /// whole batch.
    pub fn push_render(&mut self, comp_id: usize)
        ensures
            old(self)@.render.contains(comp_id) ==> final(self)@ == old(self)@,
            !old(self)@.render.contains(comp_id) ==> final(self)@ == (SchedulerLanes {
                render: old(self)@.render.push(comp_id),
                ..old(self)@
            }),
            old(self)@.spec_render_lane_unique() ==> final(self)@.spec_render_lane_unique(),
    {
        let mut i: usize = 0;
        while i < self.render.len()
            invariant
                i <= self.render@.len(),
                forall|j: int| 0 <= j < i ==> self.render@[j] != comp_id,
                *self == *old(self),
            decreases self.render@.len() - i,
        {
            if self.render[i] == comp_id {
                return ;
            }
            i = i + 1;
        }
        self.render.push(comp_id);
    }

    /// Enqueues a post-commit effect.  First-render effects go to the
    /// elevated effect lane, which the scheduler serves ahead of every
    /// later-render effect across all components.
    pub fn push_rendered(&mut self, comp_id: usize, first_render: bool)
        ensures
            first_render ==> final(self)@ == (SchedulerLanes {
                rendered_first: old(self)@.rendered_first.push(
                    RenderedUnit { comp_id, first_render },
                ),
                ..old(self)@
            }),
            !first_render ==> final(self)@ == (SchedulerLanes {
                rendered: old(self)@.rendered.push(RenderedUnit { comp_id, first_render }),
                ..old(self)@
            }),
    {
        if first_render {
            self.rendered_first.push(RenderedUnit { comp_id, first_render });
        } else {
            self.rendered.push(RenderedUnit { comp_id, first_render });
        }
    }

    /// The wake primitive: marks that externally driven work was queued.
    pub fn wake(&mut self)
        ensures
            final(self)@ == (SchedulerLanes { woken: true, ..old(self)@ }),
    {
        self.woken = true;
    }

    /// Acknowledges the wake mark.
    pub fn clear_woken(&mut self) -> (was_woken: bool)
        ensures
            was_woken == old(self)@.woken,
            final(self)@ == (SchedulerLanes { woken: false, ..old(self)@ }),
    {
        let was_woken = self.woken;
        self.woken = false;
        was_woken
    }

    /// Whether no unit is queued.
    pub fn is_idle(&self) -> (r: bool)
        ensures
            r == self@.spec_is_idle(),
    {
        self.destroy.len() == 0 && self.create.len() == 0 && self.props_update.len() == 0
            && self.render_first.len() == 0 && self.rendered_first.len() == 0 && self.update.len()
            == 0 && self.render.len() == 0 && self.rendered.len() == 0
    }

    /// Hands out the next unit of work, by lane priority.
    pub fn next_unit(&mut self) -> (r: Option<SchedUnit<P>>)
        ensures
            r == old(self)@.spec_next(),
            final(self)@ == old(self)@.spec_after_next(),
            r is None <==> old(self)@.spec_is_idle(),
    {
        if self.destroy.len() > 0 {
            let u = self.destroy.remove(0);
            proof {
                assert(self@ =~= old(self)@.spec_after_next());
            }
            Some(SchedUnit::Destroy(u))
        } else if self.create.len() > 0 {
            let u = self.create.remove(0);
            proof {
                assert(self@ =~= old(self)@.spec_after_next());
            }
            Some(SchedUnit::Create(u))
        } else if self.props_update.len() > 0 {
            let u = self.props_update.remove(0);
            proof {
                assert(self@ =~= old(self)@.spec_after_next());
            }
            Some(SchedUnit::PropsUpdate(u))
        } else if self.render_first.len() > 0 {
            let u = self.render_first.remove(0);
            proof {
                assert(self@ =~= old(self)@.spec_after_next());
            }
            Some(SchedUnit::Render(u))
        } else if self.rendered_first.len() > 0 {
            let u = self.rendered_first.pop().unwrap();
            proof {
                assert(self@ =~= old(self)@.spec_after_next());
            }
            Some(SchedUnit::Rendered(u))
        } else if self.update.len() > 0 {
            let u = self.update.remove(0);
            proof {
                assert(self@ =~= old(self)@.spec_after_next());
            }
            Some(SchedUnit::Update(u))
        } else if self.render.len() > 0 {
            let u = self.render.remove(0);
            proof {
                assert(self@ =~= old(self)@.spec_after_next());
            }
            Some(SchedUnit::Render(u))
        } else if self.rendered.len() > 0 {
            let u = self.rendered.pop().unwrap();
            proof {
                assert(self@ =~= old(self)@.spec_after_next());
            }
            Some(SchedUnit::Rendered(u))
        } else {
            None
        }
    }
}

} // verus!
