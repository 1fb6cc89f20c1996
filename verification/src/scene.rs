//! The focus logic of a Scene: which of its controls is active, which becomes active next,
//! and how Tab moves the focus around the controls.
use vstd::prelude::*;
use crate::gui_types::{GuiType, is_responder, is_responder_type};
use crate::input::Key;
use crate::layer::{Layer, NodeID, NodePath, child_path};
use crate::stage::{StageContext, agree_at, registers};

verus! {

/// Enum wrapper for actions that can be applied to a Scene and its child objects.
pub enum SceneAction<P> {
    /// Undefined
    Nothing,
    /// An action that specifies the properties to animate on a specific GUI object
    Animate(P, NodeID),
}

/// The ids are in strictly increasing order (the order in which a scene visits its controls).
pub open spec fn increasing(s: Seq<u32>) -> bool {
    forall|i: int, j: int| 0 <= i < j < s.len() ==> s[i] < s[j]
}

/// The control that Tab moves to from `x`: the next one in id order, wrapping around to
/// the first after the last.
pub open spec fn tab_successor(s: Seq<u32>, x: u32) -> u32 {
    s[(s.index_of(x) + 1) % (s.len() as int)]
}

/// The control reached from `x` after `k` presses of Tab.
pub open spec fn tab_steps(s: Seq<u32>, x: u32, k: nat) -> u32
    decreases k,
{
    if k == 0 {
        x
    } else {
        tab_successor(s, tab_steps(s, x, (k - 1) as nat))
    }
}

/// Which controls to notify when the pending focus is applied.
#[derive(Clone, Copy, Debug, PartialEq, Eq, Structural)]
pub struct FocusChange {
    /// The control that loses the focus and is told to deactivate
    pub deactivate: Option<u32>,
    /// The control that gains the focus and is told to activate
    pub activate: Option<u32>,
}

/// A view or control waiting to be loaded into a scene: its kind and the listeners its
/// layer registered, one callback per event key.
pub struct Loadable<C> {
    /// The kind of object
    pub type_id: GuiType,
    /// The event listeners: event key and callback
    pub listeners: Vec<(String, C)>,
}

impl<C> Loadable<C> {
    /// An object of the given kind with no listeners
    pub fn new(type_id: GuiType) -> (res: Self)
        ensures
            res.type_id == type_id,
            res.listeners@.len() == 0,
    {
        Loadable { type_id, listeners: Vec::new() }
    }
}

/// No two listeners are registered for the same event key.
pub open spec fn distinct_keys<C>(listeners: Seq<(String, C)>) -> bool {
    forall|i: int, j: int| 0 <= i < j < listeners.len() ==> listeners[i].0@ != listeners[j].0@
}

/// Every queued object has distinct listener keys.
pub open spec fn queue_ok<C>(queue: Seq<Loadable<C>>) -> bool {
    forall|i: int| 0 <= i < queue.len() ==> distinct_keys(#[trigger] queue[i].listeners@)
}

/// The listeners of the first `count` loaded objects are registered under their ids
/// (`base`, `base + 1`, ...) with the path that leads to each object.
pub open spec fn loaded_listeners<C>(
    m: Map<(Seq<char>, u32), (Seq<NodeID>, C)>,
    items: Seq<Loadable<C>>,
    parent: Seq<NodeID>,
    base: int,
    count: int,
) -> bool {
    forall|i: int, j: int|
        0 <= i < count && 0 <= j < items[i].listeners@.len() ==> {
            let k = (#[trigger] items[i].listeners@[j].0@, (base + i) as u32);
            &&& m.contains_key(k)
            &&& m[k] == (child_path(parent, (base + i) as u32, items[i].type_id), items[i].listeners@[j].1)
        }
}

/// Hands out fresh layer ids, counting up.
pub struct IdCounter {
    /// The id that is handed out next
    pub next_id: u32,
}

impl IdCounter {
    /// A counter that starts at `start`
    pub fn new(start: u32) -> (res: Self)
        ensures
            res.next_id == start,
    {
        IdCounter { next_id: start }
    }

    /// A fresh id: the next one, after which the counter moves on
    pub fn new_id(&mut self) -> (id: u32)
        requires
            old(self).next_id < u32::MAX,
        ensures
            id == old(self).next_id,
            final(self).next_id == old(self).next_id + 1,
    {
        let id = self.next_id;
        self.next_id = self.next_id + 1;
        id
    }
}

/// The focus state of a scene: its controls (by id), the active one and the pending one.
pub struct Scene<C> {
    /// The base layer
    layer: Layer,
    /// Display name
    name: String,
    /// The ids of the controls, in increasing order
    control_ids: Vec<u32>,
    /// The ids of the views, in the order they were loaded
    view_ids: Vec<u32>,
    /// Views waiting to be loaded
    views_queue: Vec<Loadable<C>>,
    /// Controls waiting to be loaded
    controls_queue: Vec<Loadable<C>>,
    /// The id of the currently selected control (ie, textfield)
    active_field_id: Option<u32>,
    /// The id of the control that becomes selected on the next update
    next_field_id: Option<u32>,
    /// Should this scene respond to mouse/touch events?
    is_interactive: bool,
}

impl<C> Scene<C> {
    /// The ids of the controls, in visiting order
    pub closed spec fn controls(&self) -> Seq<u32> {
        self.control_ids@
    }

    /// The ids of the loaded views
    pub closed spec fn views(&self) -> Seq<u32> {
        self.view_ids@
    }

    /// The views waiting to be loaded
    pub closed spec fn queued_views(&self) -> Seq<Loadable<C>> {
        self.views_queue@
    }

    /// The controls waiting to be loaded
    pub closed spec fn queued_controls(&self) -> Seq<Loadable<C>> {
        self.controls_queue@
    }

    /// The active control, if any
    pub closed spec fn active(&self) -> Option<u32> {
        self.active_field_id
    }

    /// The control that becomes active on the next update, if any
    pub closed spec fn pending(&self) -> Option<u32> {
        self.next_field_id
    }

    /// The scene's layer id
    pub closed spec fn layer_id(&self) -> u32 {
        self.layer.id
    }

    /// The scene's path in the view hierarchy
    pub closed spec fn path(&self) -> Seq<NodeID> {
        self.layer.node_path.nodes@
    }

    /// The scene's name
    pub closed spec fn name_view(&self) -> Seq<char> {
        self.name@
    }

    /// Whether the scene responds to mouse events
    pub closed spec fn interactive(&self) -> bool {
        self.is_interactive
    }

    /// The scene's controls are kept in increasing id order, and no queued object has two
    /// listeners for the same event key.
    pub open spec fn wf(&self) -> bool {
        &&& increasing(self.controls())
        &&& queue_ok(self.queued_views())
        &&& queue_ok(self.queued_controls())
    }

    /// Constructor
    pub fn new() -> (res: Self)
        ensures
            res.wf(),
            res.controls().len() == 0,
            res.views().len() == 0,
            res.queued_views().len() == 0,
            res.queued_controls().len() == 0,
            res.active() is None,
            res.pending() is None,
            res.interactive(),
            res.layer_id() == 0,
            res.path().len() == 0,
            res.name_view() == "untitled"@,
    {
        let mut layer = Layer::new();
        layer.type_id = GuiType::Scene;
        Scene {
            layer,
            name: "untitled".to_owned(),
            control_ids: Vec::new(),
            view_ids: Vec::new(),
            views_queue: Vec::new(),
            controls_queue: Vec::new(),
            active_field_id: None,
            next_field_id: None,
            is_interactive: true,
        }
    }

    /// Builder method to set the id and name for this Scene: the scene becomes the top of
    /// its own path.
    pub fn with_id(self, id: u32, name: &str) -> (res: Self)
        ensures
            res.layer_id() == id,
            res.name_view() == name@,
            res.path() == seq![NodeID { id, type_id: GuiType::Scene }],
            res.controls() == self.controls(),
            res.active() == self.active(),
            res.pending() == self.pending(),
            res.interactive() == self.interactive(),
            res.wf() == self.wf(),
    {
        let mut s = self;
        s.layer.set_id(id);
        s.layer.type_id = GuiType::Scene;
        s.name = name.to_owned();
        let empty: Vec<NodeID> = Vec::new();
        let _ = s.layer.set_path(empty.as_slice());
        assert(Seq::<NodeID>::empty().push(NodeID { id, type_id: GuiType::Scene }) =~= seq![
            NodeID { id, type_id: GuiType::Scene },
        ]);
        s
    }

    /// The layer id of the scene
    pub fn get_id(&self) -> (res: u32)
        ensures
            res == self.layer_id(),
    {
        self.layer.id
    }

    /// The display name of the scene
    pub fn get_name(&self) -> (res: String)
        ensures
            res@ == self.name_view(),
    {
        self.name.clone()
    }

    /// Whether the scene responds to mouse events
    pub fn is_interactive(&self) -> (res: bool)
        ensures
            res == self.interactive(),
    {
        self.is_interactive
    }

    /// Turn mouse handling on or off
    pub fn set_interactive(&mut self, interactive: bool)
        ensures
            final(self).interactive() == interactive,
            final(self).controls() == old(self).controls(),
            final(self).active() == old(self).active(),
            final(self).pending() == old(self).pending(),
            final(self).wf() == old(self).wf(),
    {
        self.is_interactive = interactive;
    }

    /// The ids of the controls, in the order in which the scene visits them
    pub fn control_ids(&self) -> (res: Vec<u32>)
        ensures
            res@ == self.controls(),
    {
        self.control_ids.clone()
    }

    /// The currently active control
    pub fn active_field_id(&self) -> (res: Option<u32>)
        ensures
            res == self.active(),
    {
        self.active_field_id
    }

    /// The control that becomes active on the next update
    pub fn next_field_id(&self) -> (res: Option<u32>)
        ensures
            res == self.pending(),
    {
        self.next_field_id
    }

    /// Add a view to be loaded with the scene. A responder (an object that takes user
    /// input) is refused and not added: it has to be added as a control.
    pub fn add_view(&mut self, view: Loadable<C>)
        requires
            old(self).wf(),
            distinct_keys(view.listeners@),
        ensures
            final(self).wf(),
            final(self).queued_views() == if is_responder_type(view.type_id) {
                old(self).queued_views()
            } else {
                old(self).queued_views().push(view)
            },
            final(self).queued_controls() == old(self).queued_controls(),
            final(self).views() == old(self).views(),
            final(self).controls() == old(self).controls(),
            final(self).active() == old(self).active(),
            final(self).pending() == old(self).pending(),
            final(self).interactive() == old(self).interactive(),
            final(self).layer_id() == old(self).layer_id(),
            final(self).path() == old(self).path(),
    {
        if is_responder(&view.type_id) {
            return;
        }
        self.views_queue.push(view);
    }

    /// Add a control to be loaded with the scene
    pub fn add_control(&mut self, control: Loadable<C>)
        requires
            old(self).wf(),
            distinct_keys(control.listeners@),
        ensures
            final(self).wf(),
            final(self).queued_controls() == old(self).queued_controls().push(control),
            final(self).queued_views() == old(self).queued_views(),
            final(self).views() == old(self).views(),
            final(self).controls() == old(self).controls(),
            final(self).active() == old(self).active(),
            final(self).pending() == old(self).pending(),
            final(self).interactive() == old(self).interactive(),
            final(self).layer_id() == old(self).layer_id(),
            final(self).path() == old(self).path(),
    {
        self.controls_queue.push(control);
    }

    /// Load the queued objects in order: each gets the next fresh id and the path of the
    /// scene followed by itself, its listeners are registered with the stage, and its id
    /// joins the views or, for controls, the controls.
    fn load_queue(
        &mut self,
        queue: Vec<Loadable<C>>,
        is_control: bool,
        ctx: &mut StageContext<C>,
        ids: &mut IdCounter,
    ) -> (res: (Vec<u32>, Vec<NodePath>))
        requires
            old(self).wf(),
            old(ctx).wf(),
            queue_ok(queue@),
            old(ids).next_id + queue@.len() <= u32::MAX,
        ensures
            final(self).wf(),
            final(ctx).wf(),
            final(ids).next_id == old(ids).next_id + queue@.len(),
            res.1@.len() == queue@.len(),
            forall|i: int|
                0 <= i < queue@.len() ==> (#[trigger] res.1@[i]).nodes@ == child_path(
                    old(self).path(),
                    (old(ids).next_id + i) as u32,
                    queue@[i].type_id,
                ),
            res.0@ == Seq::new(queue@.len(), |i: int| (old(ids).next_id + i) as u32),
            loaded_listeners(final(ctx).listeners(), queue@, old(self).path(), old(ids).next_id as int, queue@.len() as int),
            forall|key: (Seq<char>, u32)|
                !(old(ids).next_id <= key.1 < old(ids).next_id + queue@.len()) ==> #[trigger] agree_at(
                    final(ctx).listeners(),
                    old(ctx).listeners(),
                    key,
                ),
            is_control ==> final(self).views() == old(self).views() && forall|x: u32|
                #[trigger] final(self).controls().contains(x) <==> (old(self).controls().contains(x)
                    || res.0@.contains(x)),
            !is_control ==> final(self).views() == old(self).views() + res.0@ && final(self).controls()
                == old(self).controls(),
            final(self).queued_views() == old(self).queued_views(),
            final(self).queued_controls() == old(self).queued_controls(),
            final(self).active() == old(self).active(),
            final(self).pending() == old(self).pending(),
            final(self).interactive() == old(self).interactive(),
            final(self).layer_id() == old(self).layer_id(),
            final(self).path() == old(self).path(),
    {
        let ghost all = queue@;
        let ghost base = ids.next_id as int;
        let ghost start = ctx.listeners();
        let ghost ctrl0 = self.controls();
        let ghost views0 = self.views();
        let ghost parent = self.path();
        let mut q = queue;
        let mut loaded: Vec<u32> = Vec::new();
        let mut paths: Vec<NodePath> = Vec::new();
        while q.len() > 0
            invariant
                loaded@.len() + q@.len() == all.len(),
                paths@.len() == loaded@.len(),
                forall|i: int|
                    0 <= i < paths@.len() ==> (#[trigger] paths@[i]).nodes@ == child_path(
                        parent,
                        (base + i) as u32,
                        all[i].type_id,
                    ),
                forall|i: int| 0 <= i < q@.len() ==> q@[i] == all[loaded@.len() + i],
                ids.next_id == base + loaded@.len(),
                0 <= base,
                base + all.len() <= u32::MAX,
                loaded@ == Seq::new(loaded@.len(), |i: int| (base + i) as u32),
                self.wf(),
                ctx.wf(),
                queue_ok(all),
                self.path() == parent,
                loaded_listeners(ctx.listeners(), all, parent, base, loaded@.len() as int),
                forall|key: (Seq<char>, u32)|
                    !(base <= key.1 < base + loaded@.len()) ==> #[trigger] agree_at(ctx.listeners(), start, key),
                is_control ==> self.views() == views0 && forall|x: u32|
                    #[trigger] self.controls().contains(x) <==> (ctrl0.contains(x) || loaded@.contains(x)),
                !is_control ==> self.views() == views0 + loaded@ && self.controls() == ctrl0,
                self.queued_views() == old(self).queued_views(),
                self.queued_controls() == old(self).queued_controls(),
                self.active() == old(self).active(),
                self.pending() == old(self).pending(),
                self.interactive() == old(self).interactive(),
                self.layer_id() == old(self).layer_id(),
            decreases q@.len(),
        {
            let ghost k = loaded@.len() as int;
            let ghost before = ctx.listeners();
            let ghost ctrl_before = self.controls();
            assert(q@[0] == all[k]);
            let item = q.remove(0);
            assert(distinct_keys(all[k].listeners@));
            let id = ids.new_id();
            let mut layer = Layer::new();
            layer.type_id = item.type_id;
            layer.set_id(id);
            let path = layer.set_path(self.layer.node_path.nodes.as_slice());
            assert(path.nodes@ == child_path(parent, id, item.type_id));
            assert(path.nodes@.last().id == id);
            let ghost item_listeners = item.listeners@;
            ctx.register_listeners(item.listeners, &path);
            if is_control {
                self.insert_control(id);
            } else {
                self.view_ids.push(id);
            }
            let ghost lb = loaded@;
            let ghost pb = paths@;
            paths.push(path);
            assert forall|i: int| 0 <= i < paths@.len() implies (#[trigger] paths@[i]).nodes@ == child_path(
                parent,
                (base + i) as u32,
                all[i].type_id,
            ) by {
                if i < k {
                    assert(paths@[i] == pb[i]);
                }
            }
            loaded.push(id);
            assert(id == base + k);
            assert(loaded@ =~= Seq::new(loaded@.len(), |i: int| (base + i) as u32));
            assert forall|i: int, j: int|
                0 <= i < k + 1 && 0 <= j < all[i].listeners@.len() implies {
                    let key = (#[trigger] all[i].listeners@[j].0@, (base + i) as u32);
                    &&& ctx.listeners().contains_key(key)
                    &&& ctx.listeners()[key] == (child_path(parent, (base + i) as u32, all[i].type_id), all[i].listeners@[j].1)
                } by {
                if i < k {
                    let key = (all[i].listeners@[j].0@, (base + i) as u32);
                    assert((base + i) as u32 == base + i);
                    assert(key.1 != id);
                    assert(!registers(item_listeners, id, key));
                    assert(agree_at(ctx.listeners(), before, key));
                } else {
                    assert(item_listeners[j] == all[i].listeners@[j]);
                }
            }
            assert forall|key: (Seq<char>, u32)|
                !(base <= key.1 < base + loaded@.len()) implies #[trigger] agree_at(ctx.listeners(), start, key) by {
                assert(!registers(item_listeners, id, key));
                assert(agree_at(ctx.listeners(), before, key));
                assert(agree_at(before, start, key));
            }
            if is_control {
                assert forall|x: u32| #[trigger] self.controls().contains(x) <==> (ctrl0.contains(x)
                    || loaded@.contains(x)) by {
                    assert(self.controls().to_set().contains(x) == self.controls().contains(x));
                    assert(ctrl_before.to_set().contains(x) == ctrl_before.contains(x));
                    assert(self.controls().contains(x) <==> (ctrl_before.contains(x) || x == id));
                    assert(ctrl_before.contains(x) <==> (ctrl0.contains(x) || lb.contains(x)));
                    if lb.contains(x) {
                        let w = choose|w: int| 0 <= w < lb.len() && lb[w] == x;
                        assert(loaded@[w] == x);
                    }
                    if loaded@.contains(x) && x != id {
                        let w = choose|w: int| 0 <= w < loaded@.len() && loaded@[w] == x;
                        assert(w < lb.len());
                        assert(lb[w] == x);
                    }
                    if x == id {
                        assert(loaded@[loaded@.len() - 1] == x);
                    }
                }
            } else {
                assert(self.views() =~= views0 + loaded@);
            }
        }
        (loaded, paths)
    }

    /// Load the queued views and then the queued controls: each gets a fresh id from
    /// `ids`, in queue order, and the path of the scene followed by itself; the listeners
    /// its layer registered are added to the stage under its id. Returns the paths given to
    /// the views and to the controls (each path ends with the object's own node).
    pub fn view_will_load(&mut self, ctx: &mut StageContext<C>, ids: &mut IdCounter) -> (res: (
        Vec<NodePath>,
        Vec<NodePath>,
    ))
        requires
            old(self).wf(),
            old(ctx).wf(),
            old(ids).next_id + old(self).queued_views().len() + old(self).queued_controls().len() <= u32::MAX,
        ensures
            ({
                let base = old(ids).next_id as int;
                let qv = old(self).queued_views();
                let qc = old(self).queued_controls();
                let nv = qv.len() as int;
                let nc = qc.len() as int;
                &&& final(self).wf()
                &&& final(ctx).wf()
                &&& final(self).queued_views().len() == 0
                &&& final(self).queued_controls().len() == 0
                &&& final(ids).next_id == base + nv + nc
                &&& res.0@.len() == nv
                &&& res.1@.len() == nc
                &&& forall|i: int|
                    0 <= i < nv ==> (#[trigger] res.0@[i]).nodes@ == child_path(
                        old(self).path(),
                        (base + i) as u32,
                        qv[i].type_id,
                    )
                &&& forall|i: int|
                    0 <= i < nc ==> (#[trigger] res.1@[i]).nodes@ == child_path(
                        old(self).path(),
                        (base + nv + i) as u32,
                        qc[i].type_id,
                    )
                &&& final(self).views() == old(self).views() + Seq::new(nv as nat, |i: int| (base + i) as u32)
                &&& forall|x: u32| #[trigger] final(self).controls().contains(x) <==> (old(self).controls().contains(x)
                    || Seq::new(nc as nat, |i: int| (base + nv + i) as u32).contains(x))
                &&& loaded_listeners(final(ctx).listeners(), qv, old(self).path(), base, nv)
                &&& loaded_listeners(final(ctx).listeners(), qc, old(self).path(), base + nv, nc)
                &&& forall|key: (Seq<char>, u32)|
                    !(base <= key.1 < base + nv + nc) ==> #[trigger] agree_at(
                        final(ctx).listeners(),
                        old(ctx).listeners(),
                        key,
                    )
            }),
            final(self).active() == old(self).active(),
            final(self).pending() == old(self).pending(),
            final(self).interactive() == old(self).interactive(),
            final(self).layer_id() == old(self).layer_id(),
            final(self).path() == old(self).path(),
    {
        let ghost base = ids.next_id as int;
        let ghost qv = self.views_queue@;
        let ghost qc = self.controls_queue@;
        let ghost nv = qv.len() as int;
        let mut views: Vec<Loadable<C>> = Vec::new();
        std::mem::swap(&mut views, &mut self.views_queue);
        let mut controls: Vec<Loadable<C>> = Vec::new();
        std::mem::swap(&mut controls, &mut self.controls_queue);
        assert(queue_ok(views@));
        assert(queue_ok(controls@));
        let (_view_ids, view_paths) = self.load_queue(views, false, ctx, ids);
        let ghost mid = ctx.listeners();
        let (_control_ids, control_paths) = self.load_queue(controls, true, ctx, ids);
        assert forall|i: int, j: int|
            0 <= i < nv && 0 <= j < qv[i].listeners@.len() implies {
                let key = (#[trigger] qv[i].listeners@[j].0@, (base + i) as u32);
                &&& ctx.listeners().contains_key(key)
                &&& ctx.listeners()[key] == (child_path(old(self).path(), (base + i) as u32, qv[i].type_id), qv[i].listeners@[j].1)
            } by {
            let key = (qv[i].listeners@[j].0@, (base + i) as u32);
            assert(agree_at(ctx.listeners(), mid, key));
        }
        assert forall|key: (Seq<char>, u32)|
            !(base <= key.1 < base + nv + qc.len()) implies #[trigger] agree_at(ctx.listeners(), old(ctx).listeners(), key) by {
            assert(agree_at(ctx.listeners(), mid, key));
            assert(agree_at(mid, old(ctx).listeners(), key));
        }
        (view_paths, control_paths)
    }

    /// Register a loaded control under its id. A control id that is already registered is
    /// not added twice.
    fn insert_control(&mut self, id: u32)
        requires
            old(self).wf(),
        ensures
            final(self).wf(),
            final(self).controls().to_set() == old(self).controls().to_set().insert(id),
            old(self).controls().contains(id) ==> final(self).controls() == old(self).controls(),
            !old(self).controls().contains(id) ==> final(self).controls().len() == old(self).controls().len() + 1,
            final(self).active() == old(self).active(),
            final(self).pending() == old(self).pending(),
            final(self).interactive() == old(self).interactive(),
            final(self).layer_id() == old(self).layer_id(),
            final(self).path() == old(self).path(),
            final(self).views() == old(self).views(),
            final(self).queued_views() == old(self).queued_views(),
            final(self).queued_controls() == old(self).queued_controls(),
    {
        let mut p: usize = 0;
        while p < self.control_ids.len() && self.control_ids[p] < id
            invariant
                p <= self.control_ids@.len(),
                forall|k: int| 0 <= k < p ==> self.control_ids@[k] < id,
            decreases self.control_ids@.len() - p,
        {
            p = p + 1;
        }
        if p < self.control_ids.len() && self.control_ids[p] == id {
            assert(self.control_ids@.contains(id));
            assert(self.control_ids@.to_set().insert(id) =~= self.control_ids@.to_set());
            return;
        }
        let ghost before = self.control_ids@;
        assert(!before.contains(id)) by {
            if before.contains(id) {
                let k = choose|k: int| 0 <= k < before.len() && before[k] == id;
                if k >= p {
                    assert(before[p as int] <= before[k]);
                }
            }
        }
        self.control_ids.insert(p, id);
        assert(self.control_ids@ =~= before.insert(p as int, id));
        assert forall|i: int, j: int| 0 <= i < j < self.control_ids@.len() implies self.control_ids@[i]
            < self.control_ids@[j] by {
            if j < p {
            } else if j == p {
            } else if i < p {
                assert(before[i] < id);
                assert(before[p as int] >= id);
                assert(before[p as int] <= before[j - 1]);
            } else if i == p {
                assert(before[p as int] > id);
                assert(before[p as int] <= before[j - 1]);
            } else {
            }
        }
        assert(self.control_ids@.to_set() =~= before.to_set().insert(id)) by {
            assert forall|x: u32| self.control_ids@.to_set().contains(x) implies before.to_set().insert(
                id,
            ).contains(x) by {
                let k = choose|k: int| 0 <= k < self.control_ids@.len() && self.control_ids@[k] == x;
                if k < p {
                    assert(before[k] == x);
                } else if k > p {
                    assert(before[k - 1] == x);
                }
            }
            assert forall|x: u32| before.to_set().insert(id).contains(x) implies self.control_ids@.to_set().contains(
                x,
            ) by {
                if x == id {
                    assert(self.control_ids@[p as int] == id);
                } else {
                    let k = choose|k: int| 0 <= k < before.len() && before[k] == x;
                    if k < p {
                        assert(self.control_ids@[k] == x);
                    } else {
                        assert(self.control_ids@[k + 1] == x);
                    }
                }
            }
        }
    }

    /// A control accepted a mouse press: it becomes the pending focus. `hit` is the first
    /// control, in visiting order, that reported the press as its own, or `None`.
    pub fn handle_mouse_down(&mut self, hit: Option<u32>) -> (res: bool)
        ensures
            res == (hit is Some),
            final(self).pending() == (match hit {
                Some(id) => Some(id),
                None => old(self).pending(),
            }),
            final(self).active() == old(self).active(),
            final(self).controls() == old(self).controls(),
            final(self).interactive() == old(self).interactive(),
            final(self).wf() == old(self).wf(),
    {
        match hit {
            Some(id) => {
                self.next_field_id = Some(id);
                true
            },
            None => false,
        }
    }

    /// Apply the pending focus. When a control is pending, the active control (if it is
    /// another one and still present) is deactivated; then the pending control, if it is
    /// present, is activated, becomes the active control, and nothing is pending anymore.
    pub fn update_focus(&mut self) -> (res: FocusChange)
        ensures
            res.deactivate == (match (old(self).pending(), old(self).active()) {
                (Some(next), Some(last)) => if last != next && old(self).controls().contains(last) {
                    Some(last)
                } else {
                    None
                },
                _ => None,
            }),
            res.activate == (match old(self).pending() {
                Some(next) => if old(self).controls().contains(next) {
                    Some(next)
                } else {
                    None
                },
                None => None,
            }),
            res.activate is Some ==> final(self).active() == res.activate && final(self).pending() is None,
            res.activate is None ==> final(self).active() == old(self).active() && final(self).pending()
                == old(self).pending(),
            final(self).controls() == old(self).controls(),
            final(self).interactive() == old(self).interactive(),
            final(self).wf() == old(self).wf(),
    {
        let mut change = FocusChange { deactivate: None, activate: None };
        if let Some(next_id) = self.next_field_id {
            if let Some(last_id) = self.active_field_id {
                if last_id != next_id && self.has_control(last_id) {
                    change.deactivate = Some(last_id);
                }
            }
            if self.has_control(next_id) {
                change.activate = Some(next_id);
                self.active_field_id = Some(next_id);
                self.next_field_id = None;
            }
        }
        change
    }

    /// Whether a control with this id is registered
    pub fn has_control(&self, id: u32) -> (res: bool)
        ensures
            res == self.controls().contains(id),
    {
        match position_of(&self.control_ids, id) {
            Some(_) => true,
            None => false,
        }
    }

    /// The control that receives typed characters: the active control, when it is present.
    pub fn handle_key_press(&self) -> (res: Option<u32>)
        ensures
            res == (match self.active() {
                Some(id) => if self.controls().contains(id) {
                    Some(id)
                } else {
                    None
                },
                None => None,
            }),
    {
        if let Some(id) = self.active_field_id {
            if self.has_control(id) {
                return Some(id);
            }
        }
        None
    }

    /// After the active control has handled a command key (`handled` is its answer): when
    /// it reports the key as handled, the scene reports it too, and a Tab makes the next
    /// control in visiting order (wrapping around) the pending focus.
    pub fn handle_key_command(&mut self, key: Key, handled: bool) -> (res: bool)
        requires
            old(self).wf(),
        ensures
            res == (handled && (old(self).active() matches Some(id) && old(self).controls().contains(id))),
            (res && key == Key::Tab) ==> final(self).pending() == Some(
                tab_successor(old(self).controls(), old(self).active()->0),
            ),
            !(res && key == Key::Tab) ==> final(self).pending() == old(self).pending(),
            final(self).active() == old(self).active(),
            final(self).controls() == old(self).controls(),
            final(self).interactive() == old(self).interactive(),
            final(self).wf(),
    {
        if let Some(active_id) = self.active_field_id {
            if let Some(i) = position_of(&self.control_ids, active_id) {
                if handled {
                    match key {
                        Key::Tab => {
                            proof {
                                lemma_index_of_increasing(self.control_ids@, i as int);
                            }
                            let n = self.control_ids.len();
                            let j = if i + 1 == n {
                                0
                            } else {
                                i + 1
                            };
                            assert(j as int == (i + 1) % (n as int)) by (nonlinear_arith)
                                requires
                                    i < n,
                                    j == (if i + 1 == n { 0 } else { i + 1 }),
                            ;
                            self.next_field_id = Some(self.control_ids[j]);
                            return true;
                        },
                        _ => {},
                    }
                    return true;
                }
            }
        }
        false
    }
}

/// The position of `x` in `ids`, if it is there.
fn position_of(ids: &Vec<u32>, x: u32) -> (res: Option<usize>)
    ensures
        match res {
            Some(i) => i < ids@.len() && ids@[i as int] == x,
            None => !ids@.contains(x),
        },
{
    let mut i: usize = 0;
    while i < ids.len()
        invariant
            i <= ids@.len(),
            forall|k: int| 0 <= k < i ==> ids@[k] != x,
        decreases ids@.len() - i,
    {
        if ids[i] == x {
            return Some(i);
        }
        i = i + 1;
    }
    None
}

/// In an increasing sequence an element occurs once, so `index_of` finds its position.
pub proof fn lemma_index_of_increasing(s: Seq<u32>, i: int)
    requires
        increasing(s),
        0 <= i < s.len(),
    ensures
        s.index_of(s[i]) == i,
{
    let x = s[i];
    assert(s.contains(x));
    let k = s.index_of(x);
    assert(0 <= k < s.len() && s[k] == x);
    if k < i {
        assert(s[k] < s[i]);
    } else if k > i {
        assert(s[i] < s[k]);
    }
}

/// Pressing Tab `k` times from the control at position `i` reaches the control at position
/// `(i + k) mod n`.
pub proof fn lemma_tab_steps(s: Seq<u32>, i: int, k: nat)
    requires
        increasing(s),
        0 <= i < s.len(),
    ensures
        tab_steps(s, s[i], k) == s[(i + k) % (s.len() as int)],
    decreases k,
{
    let n = s.len() as int;
    if k == 0 {
        assert(i % n == i) by (nonlinear_arith)
            requires
                0 <= i < n,
        ;
    } else {
        lemma_tab_steps(s, i, (k - 1) as nat);
        let p = (i + k - 1) % n;
        assert(0 <= p < n) by (nonlinear_arith)
            requires
                n > 0,
                p == (i + k - 1) % n,
        ;
        lemma_index_of_increasing(s, p);
        assert((p + 1) % n == (i + k) % n) by (nonlinear_arith)
            requires
                n > 0,
                p == (i + k - 1) % n,
                i >= 0,
                k >= 1,
        ;
    }
}

/// Tab visits every control once per round: pressing it as many times as there are
/// controls brings the focus back to where it started, and each press lands on a control.
pub proof fn lemma_tab_cycles(s: Seq<u32>, x: u32)
    requires
        increasing(s),
        s.contains(x),
    ensures
        tab_steps(s, x, s.len()) == x,
        s.contains(tab_successor(s, x)),
        forall|a: nat, b: nat|
            a < b < s.len() ==> #[trigger] tab_steps(s, x, a) != #[trigger] tab_steps(s, x, b),
{
    let i = s.index_of(x);
    lemma_tab_steps(s, i, s.len());
    let n = s.len() as int;
    assert forall|a: nat, b: nat| a < b < s.len() implies #[trigger] tab_steps(s, x, a) != #[trigger] tab_steps(
        s,
        x,
        b,
    ) by {
        lemma_tab_steps(s, i, a);
        lemma_tab_steps(s, i, b);
        assert((i + a) % n == if i + a < n { i + a } else { i + a - n }) by (nonlinear_arith)
            requires
                0 <= i + a < 2 * n,
                n > 0,
        ;
        assert((i + b) % n == if i + b < n { i + b } else { i + b - n }) by (nonlinear_arith)
            requires
                0 <= i + b < 2 * n,
                n > 0,
        ;
        let p = (i + a) % n;
        let q = (i + b) % n;
        if p < q {
            assert(s[p] < s[q]);
        } else {
            assert(s[q] < s[p]);
        }
    }
    assert((i + n) % n == i) by (nonlinear_arith)
        requires
            0 <= i < n,
    ;
    assert(0 <= (i + 1) % n < n) by (nonlinear_arith)
        requires
            0 <= i < n,
    ;
}

/// Tab goes to the control with the smallest id above the active one, or, from the
/// control with the largest id, back to the control with the smallest id.
pub proof fn lemma_tab_successor_order(s: Seq<u32>, x: u32)
    requires
        increasing(s),
        s.contains(x),
    ensures
        s.contains(tab_successor(s, x)),
        (exists|k: int| 0 <= k < s.len() && s[k] > x) ==> {
            &&& tab_successor(s, x) > x
            &&& forall|k: int| 0 <= k < s.len() && s[k] > x ==> tab_successor(s, x) <= #[trigger] s[k]
        },
        !(exists|k: int| 0 <= k < s.len() && s[k] > x) ==> forall|k: int|
            0 <= k < s.len() ==> tab_successor(s, x) <= #[trigger] s[k],
{
    let i = s.index_of(x);
    let n = s.len() as int;
    lemma_tab_cycles(s, x);
    if i + 1 < n {
        assert((i + 1) % n == i + 1) by (nonlinear_arith)
            requires
                0 <= i + 1 < n,
        ;
        assert forall|k: int| 0 <= k < s.len() && s[k] > x implies tab_successor(s, x) <= #[trigger] s[k] by {
            if k <= i {
                if k < i {
                    assert(s[k] < s[i]);
                }
            } else if k > i + 1 {
                assert(s[i + 1] < s[k]);
            }
        }
    } else {
        assert((i + 1) % n == 0) by (nonlinear_arith)
            requires
                i + 1 == n,
                n > 0,
        ;
        assert forall|k: int| 0 <= k < s.len() implies tab_successor(s, x) <= #[trigger] s[k] by {
            if k > 0 {
                assert(s[0] < s[k]);
            }
        }
        assert forall|k: int| 0 <= k < s.len() implies !(#[trigger] s[k] > x) by {
            if k < i {
                assert(s[k] < s[i]);
            }
        }
    }
}

} // verus!
