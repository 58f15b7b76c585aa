use std::cell::RefCell;
use std::rc::Rc;

use lifecycle::{
    Bundle, Component, Context, Fatal, FNode, Fragment, HtmlResult, RenderError, RenderMode,
    RenderState, Runtime, SchedUnit, Scheduler, Slot, Suspension, VNode,
};

type Log = Rc<RefCell<Vec<String>>>;

#[derive(Clone, Default)]
struct Props {
    lifecycle: Log,
    create_message: Option<bool>,
    update_message: RefCell<Option<bool>>,
    view_message: RefCell<Option<bool>>,
    rendered_message: RefCell<Option<bool>>,
}

#[derive(Clone)]
struct ChildProps {
    lifecycle: Log,
}

enum TestProps {
    Parent(Props),
    Child(ChildProps),
}

enum Comp {
    Parent { lifecycle: Log },
    Child,
}

impl Component for Comp {
    type Message = bool;
    type Properties = TestProps;

    fn create(ctx: &Context<TestProps>) -> (Self, Vec<bool>) {
        match &ctx.props {
            TestProps::Parent(p) => {
                p.lifecycle.borrow_mut().push("create".into());
                let mut msgs = Vec::new();
                if let Some(msg) = p.create_message {
                    msgs.push(msg);
                }
                (
                    Comp::Parent {
                        lifecycle: Rc::clone(&p.lifecycle),
                    },
                    msgs,
                )
            }
            TestProps::Child(_) => (Comp::Child, Vec::new()),
        }
    }

    fn view(&self, ctx: &Context<TestProps>) -> (HtmlResult<TestProps>, Vec<bool>) {
        match (self, &ctx.props) {
            (Comp::Parent { lifecycle }, TestProps::Parent(p)) => {
                let mut msgs = Vec::new();
                if let Some(msg) = p.view_message.borrow_mut().take() {
                    msgs.push(msg);
                }
                lifecycle.borrow_mut().push("view".into());
                let child = VNode::Child(TestProps::Child(ChildProps {
                    lifecycle: Rc::clone(lifecycle),
                }));
                (Ok(vec![child]), msgs)
            }
            _ => (Ok(Vec::new()), Vec::new()),
        }
    }

    fn update(&mut self, ctx: &Context<TestProps>, msg: bool) -> (bool, Vec<bool>) {
        match (&*self, &ctx.props) {
            (Comp::Parent { .. }, TestProps::Parent(p)) => {
                let mut msgs = Vec::new();
                if let Some(m) = p.update_message.borrow_mut().take() {
                    msgs.push(m);
                }
                p.lifecycle.borrow_mut().push(format!("update({})", msg));
                (msg, msgs)
            }
            _ => (false, Vec::new()),
        }
    }

    fn changed(&mut self, ctx: &Context<TestProps>, _old_props: &TestProps) -> (bool, Vec<bool>) {
        match &ctx.props {
            TestProps::Parent(p) => {
                p.lifecycle.borrow_mut().push("change".into());
                (false, Vec::new())
            }
            TestProps::Child(_) => (false, Vec::new()),
        }
    }

    fn rendered(&mut self, ctx: &Context<TestProps>, first_render: bool) -> Vec<bool> {
        match (&*self, &ctx.props) {
            (Comp::Parent { .. }, TestProps::Parent(p)) => {
                let mut msgs = Vec::new();
                if let Some(m) = p.rendered_message.borrow_mut().take() {
                    msgs.push(m);
                }
                p.lifecycle
                    .borrow_mut()
                    .push(format!("rendered({})", first_render));
                msgs
            }
            (Comp::Child, TestProps::Child(cp)) => {
                cp.lifecycle.borrow_mut().push("child rendered".into());
                Vec::new()
            }
            _ => Vec::new(),
        }
    }

    fn destroy(&mut self, ctx: &Context<TestProps>) -> Vec<bool> {
        match &ctx.props {
            TestProps::Parent(p) => {
                p.lifecycle.borrow_mut().push("destroy".into());
            }
            TestProps::Child(_) => {}
        }
        Vec::new()
    }

    fn accepts_props(&self, props: &TestProps) -> bool {
        matches!(
            (self, props),
            (Comp::Parent { .. }, TestProps::Parent(_)) | (Comp::Child, TestProps::Child(_))
        )
    }

    fn props_eq(a: &TestProps, b: &TestProps) -> bool {
        match (a, b) {
            (TestProps::Parent(x), TestProps::Parent(y)) => {
                x.create_message == y.create_message
                    && *x.update_message.borrow() == *y.update_message.borrow()
                    && *x.view_message.borrow() == *y.view_message.borrow()
                    && *x.rendered_message.borrow() == *y.rendered_message.borrow()
            }
            (TestProps::Child(_), TestProps::Child(_)) => true,
            _ => false,
        }
    }
}

fn test_lifecycle(props: Props, expected: &[&str]) {
    let mut rt: Runtime<Comp> = Runtime::new();
    let lifecycle = Rc::clone(&props.lifecycle);
    lifecycle.borrow_mut().clear();
    rt.mount(TestProps::Parent(props), 0, Slot::AtEnd, None);
    assert!(matches!(rt.run(100_000), Ok(true)));
    assert_eq!(&lifecycle.borrow()[..], expected);
}

#[test]
fn lifecycle_tests() {
    let lifecycle: Log = Rc::default();

    test_lifecycle(
        Props {
            lifecycle: lifecycle.clone(),
            ..Props::default()
        },
        &["create", "view", "child rendered", "rendered(true)"],
    );

    test_lifecycle(
        Props {
            lifecycle: lifecycle.clone(),
            create_message: Some(false),
            ..Props::default()
        },
        &[
            "create",
            "view",
            "child rendered",
            "rendered(true)",
            "update(false)",
        ],
    );

    test_lifecycle(
        Props {
            lifecycle: lifecycle.clone(),
            view_message: RefCell::new(Some(true)),
            ..Props::default()
        },
        &[
            "create",
            "view",
            "child rendered",
            "rendered(true)",
            "update(true)",
            "view",
            "rendered(false)",
        ],
    );

    test_lifecycle(
        Props {
            lifecycle: lifecycle.clone(),
            view_message: RefCell::new(Some(false)),
            ..Props::default()
        },
        &[
            "create",
            "view",
            "child rendered",
            "rendered(true)",
            "update(false)",
        ],
    );

    test_lifecycle(
        Props {
            lifecycle: lifecycle.clone(),
            rendered_message: RefCell::new(Some(false)),
            ..Props::default()
        },
        &[
            "create",
            "view",
            "child rendered",
            "rendered(true)",
            "update(false)",
        ],
    );

    test_lifecycle(
        Props {
            lifecycle: lifecycle.clone(),
            rendered_message: RefCell::new(Some(true)),
            ..Props::default()
        },
        &[
            "create",
            "view",
            "child rendered",
            "rendered(true)",
            "update(true)",
            "view",
            "rendered(false)",
        ],
    );

    // This also tests render deduplication after the first render
    test_lifecycle(
        Props {
            lifecycle,
            create_message: Some(true),
            update_message: RefCell::new(Some(true)),
            ..Props::default()
        },
        &[
            "create",
            "view",
            "child rendered",
            "rendered(true)",
            "update(true)",
            "update(true)",
            "view",
            "rendered(false)",
        ],
    );
}

fn count(log: &Log, needle: &str) -> usize {
    log.borrow().iter().filter(|s| s.as_str() == needle).count()
}

#[test]
fn batched_updates_render_once() {
    let lifecycle: Log = Rc::default();
    let mut rt: Runtime<Comp> = Runtime::new();
    let p = rt.mount(
        TestProps::Parent(Props {
            lifecycle: lifecycle.clone(),
            ..Props::default()
        }),
        0,
        Slot::AtEnd,
        None,
    );
    assert!(matches!(rt.run(100_000), Ok(true)));
    assert_eq!(count(&lifecycle, "view"), 1);

    // Two handlers answering false: every message delivered, no render.
    rt.send_message(p, false);
    rt.send_message(p, false);
    assert!(matches!(rt.run(100_000), Ok(true)));
    assert_eq!(count(&lifecycle, "update(false)"), 2);
    assert_eq!(count(&lifecycle, "view"), 1);

    // One true among the batch: exactly one more physical render.
    rt.send_message(p, true);
    rt.send_message(p, false);
    assert!(matches!(rt.run(100_000), Ok(true)));
    assert_eq!(count(&lifecycle, "update(true)"), 1);
    assert_eq!(count(&lifecycle, "view"), 2);
    assert_eq!(count(&lifecycle, "rendered(false)"), 1);
}

#[test]
fn props_change_fires_hook_only_on_real_change() {
    let lifecycle: Log = Rc::default();
    let mut rt: Runtime<Comp> = Runtime::new();
    let p = rt.mount(
        TestProps::Parent(Props {
            lifecycle: lifecycle.clone(),
            ..Props::default()
        }),
        0,
        Slot::AtEnd,
        None,
    );
    assert!(matches!(rt.run(100_000), Ok(true)));

    // Equal properties: no changed hook.
    rt.schedule_props_update(
        p,
        Some(TestProps::Parent(Props {
            lifecycle: lifecycle.clone(),
            ..Props::default()
        })),
        None,
    );
    assert!(matches!(rt.run(100_000), Ok(true)));
    assert_eq!(count(&lifecycle, "change"), 0);

    // A properties kind mismatch is swallowed as "no change".
    rt.schedule_props_update(
        p,
        Some(TestProps::Child(ChildProps {
            lifecycle: lifecycle.clone(),
        })),
        None,
    );
    assert!(matches!(rt.run(100_000), Ok(true)));
    assert_eq!(count(&lifecycle, "change"), 0);

    // A real difference fires the hook once.
    rt.schedule_props_update(
        p,
        Some(TestProps::Parent(Props {
            lifecycle: lifecycle.clone(),
            create_message: Some(true),
            ..Props::default()
        })),
        None,
    );
    assert!(matches!(rt.run(100_000), Ok(true)));
    assert_eq!(count(&lifecycle, "change"), 1);
}

#[test]
fn destroy_tears_down_children_and_is_idempotent() {
    let lifecycle: Log = Rc::default();
    let mut rt: Runtime<Comp> = Runtime::new();
    let p = rt.mount(
        TestProps::Parent(Props {
            lifecycle: lifecycle.clone(),
            ..Props::default()
        }),
        0,
        Slot::AtEnd,
        None,
    );
    assert!(matches!(rt.run(100_000), Ok(true)));
    assert_eq!(rt.cells.len(), 2);
    assert!(rt.cells[0].is_some());
    assert!(rt.cells[1].is_some());

    rt.schedule_destroy(p, false);
    assert!(matches!(rt.run(100_000), Ok(true)));
    assert!(rt.cells[0].is_none());
    assert!(rt.cells[1].is_none());
    assert_eq!(count(&lifecycle, "destroy"), 1);

    // A destroy unit against an already-destroyed instance is a no-op.
    rt.schedule_destroy(p, false);
    assert!(matches!(rt.run(100_000), Ok(true)));
    assert_eq!(count(&lifecycle, "destroy"), 1);
}

#[test]
fn ssr_sends_the_tree_exactly_once() {
    let lifecycle: Log = Rc::default();
    let mut rt: Runtime<Comp> = Runtime::new();
    let p = rt.mount_ssr(
        TestProps::Parent(Props {
            lifecycle: lifecycle.clone(),
            ..Props::default()
        }),
        None,
    );
    assert!(matches!(rt.run(100_000), Ok(true)));
    assert_eq!(rt.ssr_out.len(), 1);
    assert_eq!(rt.ssr_out[0].comp_id, p);
    assert_eq!(rt.ssr_out[0].tree.len(), 1);
    assert!(matches!(rt.ssr_out[0].tree[0], VNode::Child(_)));
    // No post-commit effect runs for a server render.
    assert_eq!(count(&lifecycle, "rendered(true)"), 0);

    // A later render must not use the completion channel again.
    rt.send_message(p, true);
    assert!(matches!(rt.run(100_000), Ok(true)));
    assert_eq!(count(&lifecycle, "view"), 2);
    assert_eq!(rt.ssr_out.len(), 1);
}

#[test]
fn sibling_slot_on_ssr_target_is_fatal() {
    let lifecycle: Log = Rc::default();
    let mut rt: Runtime<Comp> = Runtime::new();
    let p = rt.mount_ssr(
        TestProps::Parent(Props {
            lifecycle,
            ..Props::default()
        }),
        None,
    );
    assert!(matches!(rt.run(100_000), Ok(true)));
    rt.schedule_props_update(p, None, Some(Slot::AtEnd));
    assert_eq!(
        rt.run(100_000),
        Err(Fatal::SlotReassignedDuringServerRender)
    );
}

#[test]
fn hydration_transitions_and_schedules_priority_render() {
    let lifecycle: Log = Rc::default();
    let mut rt: Runtime<Comp> = Runtime::new();
    let p = rt.mount_hydrate(
        TestProps::Parent(Props {
            lifecycle: lifecycle.clone(),
            ..Props::default()
        }),
        0,
        vec![FNode::Element, FNode::Text(b" \n ".to_vec())],
        Slot::AtEnd,
        None,
        None,
    );
    // Step one unit at a time: creation, then the hydrating first render.
    assert!(matches!(rt.run(1), Ok(false)));
    assert!(matches!(
        rt.cells[p].as_ref().unwrap().render_state,
        RenderState::Hydration { .. }
    ));
    assert!(matches!(rt.run(1), Ok(false)));
    // The commit consumed the fragment, transitioned to the live backend,
    // and the instance still has its first completed render ahead of it.
    let st = rt.cells[p].as_ref().unwrap();
    assert!(matches!(st.render_state, RenderState::Render { .. }));
    assert_eq!(st.context.creation_mode, RenderMode::Hydration);
    assert!(!st.has_rendered);

    assert!(matches!(rt.run(100_000), Ok(true)));
    let st = rt.cells[p].as_ref().unwrap();
    assert!(st.has_rendered);
    // The provisional pass and the eager follow-up each produced a view.
    assert_eq!(count(&lifecycle, "view"), 2);
    assert_eq!(count(&lifecycle, "rendered(true)"), 1);
    assert_eq!(count(&lifecycle, "rendered(false)"), 0);
}

#[test]
fn hydration_parks_props_until_first_render() {
    let lifecycle: Log = Rc::default();
    let mut rt: Runtime<Comp> = Runtime::new();
    let p = rt.mount_hydrate(
        TestProps::Parent(Props {
            lifecycle: lifecycle.clone(),
            ..Props::default()
        }),
        0,
        vec![FNode::Element],
        Slot::AtEnd,
        None,
        None,
    );
    // Run only the creation unit, then deliver differing properties before
    // the first render: they must be parked, the hook deferred.
    assert!(matches!(rt.run(1), Ok(false)));
    rt.schedule_props_update(
        p,
        Some(TestProps::Parent(Props {
            lifecycle: lifecycle.clone(),
            create_message: Some(false),
            ..Props::default()
        })),
        None,
    );
    assert!(matches!(rt.run(1), Ok(false)));
    assert!(rt.cells[p].as_ref().unwrap().pending_props.is_some());
    assert_eq!(count(&lifecycle, "change"), 0);

    assert!(matches!(rt.run(100_000), Ok(true)));
    assert!(rt.cells[p].as_ref().unwrap().pending_props.is_none());
    assert_eq!(count(&lifecycle, "change"), 1);
}

#[test]
fn hydration_mismatch_is_fatal() {
    let lifecycle: Log = Rc::default();
    let mut rt: Runtime<Comp> = Runtime::new();
    rt.mount_hydrate(
        TestProps::Parent(Props {
            lifecycle,
            ..Props::default()
        }),
        0,
        vec![FNode::Element, FNode::Text(b"left over".to_vec()), FNode::Element],
        Slot::AtEnd,
        None,
        None,
    );
    assert_eq!(rt.run(100_000), Err(Fatal::HydrationMismatch));
}

#[test]
fn trim_drops_leading_whitespace_text_nodes() {
    let mut fragment = Fragment::new(vec![
        FNode::Text(b" \t\r\n".to_vec()),
        FNode::Text(b"  ".to_vec()),
        FNode::Element,
        FNode::Text(b"   ".to_vec()),
    ]);
    fragment.trim_start_text_nodes();
    assert_eq!(fragment.nodes.len(), 2);
    assert!(matches!(fragment.nodes[0], FNode::Element));

    let mut kept = Fragment::new(vec![FNode::Text(b" x ".to_vec())]);
    kept.trim_start_text_nodes();
    assert_eq!(kept.nodes.len(), 1);
}

#[test]
fn shift_moves_target_under_new_parent() {
    let mut rs = RenderState::Render {
        bundle: Bundle { nodes: Vec::new() },
        parent: 1,
        sibling_slot: Slot::AtEnd,
        own_slot: Slot::AtEnd,
    };
    rs.shift(2, Slot::Node(7));
    match rs {
        RenderState::Render {
            parent,
            sibling_slot,
            own_slot,
            ..
        } => {
            assert_eq!(parent, 2);
            assert_eq!(sibling_slot, Slot::Node(7));
            assert_eq!(own_slot, Slot::AtEnd);
        }
        _ => panic!("shift must keep the live-render backend"),
    }
}

#[test]
fn elevated_renders_precede_earlier_normal_renders() {
    let mut sched: Scheduler<u32> = Scheduler::new();
    sched.push_render(5);
    sched.push_render_first(9);
    assert!(matches!(sched.next_unit(), Some(SchedUnit::Render(9))));
    assert!(matches!(sched.next_unit(), Some(SchedUnit::Render(5))));
    assert!(sched.next_unit().is_none());

    // The render lane keeps one pending render per component.
    sched.push_render(7);
    sched.push_render(7);
    assert!(matches!(sched.next_unit(), Some(SchedUnit::Render(7))));
    assert!(sched.next_unit().is_none());
}

struct SuspProps {
    lifecycle: Log,
    suspend_with: RefCell<Vec<Suspension>>,
}

struct Susp {
    lifecycle: Log,
}

impl Component for Susp {
    type Message = ();
    type Properties = SuspProps;

    fn create(ctx: &Context<SuspProps>) -> (Self, Vec<()>) {
        ctx.props.lifecycle.borrow_mut().push("create".into());
        (
            Susp {
                lifecycle: Rc::clone(&ctx.props.lifecycle),
            },
            Vec::new(),
        )
    }

    fn view(&self, ctx: &Context<SuspProps>) -> (HtmlResult<SuspProps>, Vec<()>) {
        match ctx.props.suspend_with.borrow_mut().pop() {
            Some(s) => (Err(RenderError::Suspended(s)), Vec::new()),
            None => {
                self.lifecycle.borrow_mut().push("view".into());
                (Ok(Vec::new()), Vec::new())
            }
        }
    }

    fn update(&mut self, _ctx: &Context<SuspProps>, _msg: ()) -> (bool, Vec<()>) {
        (false, Vec::new())
    }

    fn changed(&mut self, _ctx: &Context<SuspProps>, _old: &SuspProps) -> (bool, Vec<()>) {
        (false, Vec::new())
    }

    fn rendered(&mut self, _ctx: &Context<SuspProps>, first_render: bool) -> Vec<()> {
        self.lifecycle
            .borrow_mut()
            .push(format!("rendered({})", first_render));
        Vec::new()
    }

    fn destroy(&mut self, _ctx: &Context<SuspProps>) -> Vec<()> {
        self.lifecycle.borrow_mut().push("destroy".into());
        Vec::new()
    }

    fn accepts_props(&self, _props: &SuspProps) -> bool {
        true
    }

    fn props_eq(_a: &SuspProps, _b: &SuspProps) -> bool {
        true
    }
}

#[test]
fn suspension_blocks_rendered_until_resolved() {
    let lifecycle: Log = Rc::default();
    let mut rt: Runtime<Susp> = Runtime::new();
    let b = rt.create_boundary();
    let s = rt.create_suspension();
    let p = rt.mount(
        SuspProps {
            lifecycle: lifecycle.clone(),
            suspend_with: RefCell::new(vec![s]),
        },
        0,
        Slot::AtEnd,
        Some(b),
    );
    assert!(matches!(rt.run(100_000), Ok(true)));
    // Suspended: one occurrence parked at the boundary, no effect hook ran.
    assert_eq!(rt.boundaries.list[b].pending.len(), 1);
    assert_eq!(rt.cells[p].as_ref().unwrap().suspension, Some(s));
    assert_eq!(count(&lifecycle, "rendered(true)"), 0);

    // The external signal re-queues the render and pulls the wake primitive.
    rt.resolve_suspension(s);
    assert!(matches!(rt.run(100_000), Ok(true)));
    // The successful commit resumed the tracked suspension exactly once.
    assert_eq!(rt.boundaries.list[b].pending.len(), 0);
    assert!(rt.cells[p].as_ref().unwrap().suspension.is_none());
    assert_eq!(&lifecycle.borrow()[..], ["create", "view", "rendered(true)"]);
}

#[test]
fn suspending_without_boundary_is_fatal() {
    let lifecycle: Log = Rc::default();
    let mut rt: Runtime<Susp> = Runtime::new();
    let s = rt.create_suspension();
    rt.mount(
        SuspProps {
            lifecycle,
            suspend_with: RefCell::new(vec![s]),
        },
        0,
        Slot::AtEnd,
        None,
    );
    assert_eq!(rt.run(100_000), Err(Fatal::NoSuspenseBoundary));
}

#[test]
fn already_resolved_suspension_requeues_render_immediately() {
    let lifecycle: Log = Rc::default();
    let mut rt: Runtime<Susp> = Runtime::new();
    let b = rt.create_boundary();
    let s = rt.create_suspension();
    rt.resolve_suspension(s);
    rt.mount(
        SuspProps {
            lifecycle: lifecycle.clone(),
            suspend_with: RefCell::new(vec![s]),
        },
        0,
        Slot::AtEnd,
        Some(b),
    );
    assert!(matches!(rt.run(100_000), Ok(true)));
    // The race closes without ever parking at the boundary.
    assert_eq!(rt.boundaries.list[b].pending.len(), 0);
    assert_eq!(&lifecycle.borrow()[..], ["create", "view", "rendered(true)"]);
}

#[test]
fn new_suspension_supersedes_tracked_one() {
    let lifecycle: Log = Rc::default();
    let mut rt: Runtime<Susp> = Runtime::new();
    let b = rt.create_boundary();
    let s1 = rt.create_suspension();
    let s2 = rt.create_suspension();
    let p = rt.mount(
        SuspProps {
            lifecycle: lifecycle.clone(),
            suspend_with: RefCell::new(vec![s2, s1]),
        },
        0,
        Slot::AtEnd,
        Some(b),
    );
    assert!(matches!(rt.run(100_000), Ok(true)));
    assert_eq!(rt.boundaries.list[b].pending, vec![s1.id]);

    rt.resolve_suspension(s1);
    assert!(matches!(rt.run(100_000), Ok(true)));
    // The superseded suspension was released; only the new one is parked.
    assert_eq!(rt.boundaries.list[b].pending, vec![s2.id]);
    assert_eq!(rt.cells[p].as_ref().unwrap().suspension, Some(s2));

    rt.resolve_suspension(s2);
    assert!(matches!(rt.run(100_000), Ok(true)));
    assert_eq!(rt.boundaries.list[b].pending.len(), 0);
    assert_eq!(&lifecycle.borrow()[..], ["create", "view", "rendered(true)"]);
}

enum ToggleProps {
    Root(Rc<RefCell<bool>>),
    Leaf,
}

enum Toggle {
    Root,
    Leaf,
}

impl Component for Toggle {
    type Message = bool;
    type Properties = ToggleProps;

    fn create(_ctx: &Context<ToggleProps>) -> (Self, Vec<bool>) {
        match &_ctx.props {
            ToggleProps::Root(_) => (Toggle::Root, Vec::new()),
            ToggleProps::Leaf => (Toggle::Leaf, Vec::new()),
        }
    }

    fn view(&self, ctx: &Context<ToggleProps>) -> (HtmlResult<ToggleProps>, Vec<bool>) {
        match &ctx.props {
            ToggleProps::Root(show_child) => {
                if *show_child.borrow() {
                    (Ok(vec![VNode::Child(ToggleProps::Leaf)]), Vec::new())
                } else {
                    (Ok(vec![VNode::Text(b"empty".to_vec())]), Vec::new())
                }
            }
            ToggleProps::Leaf => (Ok(Vec::new()), Vec::new()),
        }
    }

    fn update(&mut self, ctx: &Context<ToggleProps>, msg: bool) -> (bool, Vec<bool>) {
        if let ToggleProps::Root(show_child) = &ctx.props {
            *show_child.borrow_mut() = msg;
        }
        (true, Vec::new())
    }

    fn changed(&mut self, _ctx: &Context<ToggleProps>, _old: &ToggleProps) -> (bool, Vec<bool>) {
        (false, Vec::new())
    }

    fn rendered(&mut self, _ctx: &Context<ToggleProps>, _first_render: bool) -> Vec<bool> {
        Vec::new()
    }

    fn destroy(&mut self, _ctx: &Context<ToggleProps>) -> Vec<bool> {
        Vec::new()
    }

    fn accepts_props(&self, props: &ToggleProps) -> bool {
        matches!(
            (self, props),
            (Toggle::Root, ToggleProps::Root(_)) | (Toggle::Leaf, ToggleProps::Leaf)
        )
    }

    fn props_eq(a: &ToggleProps, b: &ToggleProps) -> bool {
        match (a, b) {
            (ToggleProps::Root(x), ToggleProps::Root(y)) => *x.borrow() == *y.borrow(),
            (ToggleProps::Leaf, ToggleProps::Leaf) => true,
            _ => false,
        }
    }
}

#[test]
fn reconcile_unmounts_children_without_a_position() {
    let show_child = Rc::new(RefCell::new(true));
    let mut rt: Runtime<Toggle> = Runtime::new();
    let root = rt.mount(
        ToggleProps::Root(Rc::clone(&show_child)),
        0,
        Slot::AtEnd,
        None,
    );
    assert!(matches!(rt.run(100_000), Ok(true)));
    assert_eq!(rt.cells.len(), 2);
    assert!(rt.cells[1].is_some());

    // The re-rendered tree replaces the child with a text node: the child
    // instance left without a position is torn down.
    rt.send_message(root, false);
    assert!(matches!(rt.run(100_000), Ok(true)));
    assert!(rt.cells[1].is_none());
    assert!(rt.cells[root].is_some());
}

#[test]
fn destroy_resumes_pending_suspension() {
    let lifecycle: Log = Rc::default();
    let mut rt: Runtime<Susp> = Runtime::new();
    let b = rt.create_boundary();
    let s = rt.create_suspension();
    let p = rt.mount(
        SuspProps {
            lifecycle: lifecycle.clone(),
            suspend_with: RefCell::new(vec![s]),
        },
        0,
        Slot::AtEnd,
        Some(b),
    );
    assert!(matches!(rt.run(100_000), Ok(true)));
    assert_eq!(rt.boundaries.list[b].pending.len(), 1);

    // Teardown must not leave the boundary waiting forever.
    rt.schedule_destroy(p, false);
    assert!(matches!(rt.run(100_000), Ok(true)));
    assert!(rt.cells[p].is_none());
    assert_eq!(rt.boundaries.list[b].pending.len(), 0);
    assert_eq!(count(&lifecycle, "destroy"), 1);
}
