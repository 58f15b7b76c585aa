//! Ordering guarantees of the unit-of-work queue, stated on their own.

use vstd::prelude::*;

use crate::scheduler::{SchedUnit, SchedulerLanes};

verus! {

/// However many update units asked for a re-render before the render unit
/// ran, a well-formed render lane never holds two pending renders for one
/// component: one physical render serves the whole batch.
pub proof fn lemma_one_render_per_batch<P>(lanes: SchedulerLanes<P>, comp: usize)
    requires
        lanes.spec_render_lane_unique(),
    ensures
        forall|i: int, j: int|
            0 <= i < j < lanes.render.len() ==> !(lanes.render[i] == comp && lanes.render[j]
                == comp),
{
}

/// An elevated render — a first render, or the follow-up pass a hydration
/// commit queues — is served ahead of every normal-priority render, however
/// much earlier those were queued, as soon as the teardown, creation and
/// properties lanes are clear.
pub proof fn lemma_elevated_render_precedes_normal<P>(lanes: SchedulerLanes<P>)
    requires
        lanes.destroy.len() == 0,
        lanes.create.len() == 0,
        lanes.props_update.len() == 0,
        lanes.render_first.len() > 0,
    ensures
        lanes.spec_next() == Some(SchedUnit::Render::<P>(lanes.render_first[0])),
{
}

} // verus!
