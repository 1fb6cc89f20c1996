//! The event listener registry of a stage: which subscriber's callback an event from a
//! given sender reaches.
use vstd::prelude::*;
use crate::keyed::{has_key, keyed_map, lemma_keyed_map_at, lemma_keyed_map_empty, lemma_keyed_map_push, lemma_keyed_map_update, unique_keys};
use crate::layer::{NodeID, NodePath, child_path};
use crate::gui_types::GuiType;

verus! {

/// A registered listener: the event key and sender id it listens for, the path of the
/// subscriber, and the callback to run.
pub struct Listener<C> {
    /// The event key
    pub key: String,
    /// The id of the object whose events are listened for (the subscriber's own id)
    pub id: u32,
    /// The path of the subscriber
    pub subscriber: NodePath,
    /// The callback
    pub callback: C,
}

/// The table entry of a listener: its key and sender id, then its subscriber path and callback.
pub open spec fn listener_entry<C>(l: Listener<C>) -> ((Seq<char>, u32), (Seq<NodeID>, C)) {
    ((l.key@, l.id), (l.subscriber.nodes@, l.callback))
}

/// Whether registering `listeners` for events sent by `id` sets the table entry `k`.
pub open spec fn registers<C>(listeners: Seq<(String, C)>, id: u32, k: (Seq<char>, u32)) -> bool {
    k.1 == id && exists|i: int| 0 <= i < listeners.len() && #[trigger] listeners[i].0@ == k.0
}

/// The two tables agree on the entry `k`: both have it with the same value, or neither has it.
pub open spec fn agree_at<K, V>(m1: Map<K, V>, m2: Map<K, V>, k: K) -> bool {
    m1.contains_key(k) == m2.contains_key(k) && (m2.contains_key(k) ==> m1[k] == m2[k])
}

/// A holder of data for the current stage
pub struct StageContext<C> {
    /// The listeners; no two have the same key and id
    event_listeners: Vec<Listener<C>>,
}

impl<C> StageContext<C> {
    /// The entries of the listener table
    pub closed spec fn entries(&self) -> Seq<((Seq<char>, u32), (Seq<NodeID>, C))> {
        self.event_listeners@.map_values(|l: Listener<C>| listener_entry(l))
    }

    /// The listeners, by event key and sender id
    pub open spec fn listeners(&self) -> Map<(Seq<char>, u32), (Seq<NodeID>, C)> {
        keyed_map(self.entries())
    }

    /// No two listeners have the same key and id
    pub open spec fn wf(&self) -> bool {
        unique_keys(self.entries())
    }

    /// Constructor
    pub fn new() -> (res: Self)
        ensures
            res.wf(),
            res.listeners() == Map::<(Seq<char>, u32), (Seq<NodeID>, C)>::empty(),
    {
        let res = StageContext { event_listeners: Vec::new() };
        assert(res.entries() =~= Seq::empty());
        proof {
            lemma_keyed_map_empty::<(Seq<char>, u32), (Seq<NodeID>, C)>();
        }
        res
    }

    /// The number of listeners
    pub fn listener_count(&self) -> (res: usize)
        ensures
            res == self.entries().len(),
    {
        self.event_listeners.len()
    }

    /// The position of the listener for this key and sender id
    fn position(&self, key: &String, id: u32) -> (res: Option<usize>)
        requires
            self.wf(),
        ensures
            match res {
                Some(i) => i < self.event_listeners@.len() && self.entries()[i as int].0 == (key@, id),
                None => !has_key(self.entries(), (key@, id)),
            },
    {
        let mut i: usize = 0;
        while i < self.event_listeners.len()
            invariant
                i <= self.event_listeners@.len(),
                forall|k: int| 0 <= k < i ==> self.entries()[k].0 != (key@, id),
            decreases self.event_listeners@.len() - i,
        {
            if self.event_listeners[i].id == id && self.event_listeners[i].key == *key {
                return Some(i);
            }
            i = i + 1;
        }
        None
    }

    /// Register a listener for the event `key` sent by the subscriber itself (the last node
    /// of its path). A listener for the same key and id is replaced.
    pub fn add_event_listener(&mut self, key: String, cb: C, subscriber: NodePath)
        requires
            old(self).wf(),
            subscriber.nodes@.len() > 0,
        ensures
            final(self).wf(),
            final(self).listeners() == old(self).listeners().insert(
                (key@, subscriber.nodes@.last().id),
                (subscriber.nodes@, cb),
            ),
    {
        let id: u32 = subscriber.last_node().id;
        let ghost before = self.entries();
        let listener = Listener { key, id, subscriber, callback: cb };
        let ghost entry = listener_entry(listener);
        match self.position(&listener.key, id) {
            Some(i) => {
                self.event_listeners.set(i, listener);
                proof {
                    lemma_keyed_map_update(before, i as int, entry.1);
                    assert(self.entries() =~= before.update(i as int, (before[i as int].0, entry.1)));
                }
            },
            None => {
                self.event_listeners.push(listener);
                proof {
                    lemma_keyed_map_push(before, entry.0, entry.1);
                    assert(self.entries() =~= before.push(entry));
                }
            },
        }
    }

    /// Register the listeners that a loaded view queued (one callback per event key) for
    /// events that the view itself sends: the view is the last node of `subscriber`.
    pub fn register_listeners(&mut self, listeners: Vec<(String, C)>, subscriber: &NodePath)
        requires
            old(self).wf(),
            subscriber.nodes@.len() > 0,
            forall|i: int, j: int|
                0 <= i < j < listeners@.len() ==> listeners@[i].0@ != listeners@[j].0@,
        ensures
            final(self).wf(),
            forall|i: int|
                0 <= i < listeners@.len() ==> {
                    let k = (#[trigger] listeners@[i].0@, subscriber.nodes@.last().id);
                    &&& final(self).listeners().contains_key(k)
                    &&& final(self).listeners()[k] == (subscriber.nodes@, listeners@[i].1)
                },
            forall|k: (Seq<char>, u32)|
                !registers(listeners@, subscriber.nodes@.last().id, k) ==> #[trigger] agree_at(
                    final(self).listeners(),
                    old(self).listeners(),
                    k,
                ),
    {
        let ghost all = listeners@;
        let ghost sid = subscriber.nodes@.last().id;
        let ghost start = self.listeners();
        let mut rest = listeners;
        while rest.len() > 0
            invariant
                self.wf(),
                subscriber.nodes@.len() > 0,
                sid == subscriber.nodes@.last().id,
                rest@.len() <= all.len(),
                forall|i: int| 0 <= i < rest@.len() ==> rest@[i] == all[i],
                forall|i: int, j: int| 0 <= i < j < all.len() ==> all[i].0@ != all[j].0@,
                forall|i: int|
                    rest@.len() <= i < all.len() ==> {
                        let k = (#[trigger] all[i].0@, sid);
                        &&& self.listeners().contains_key(k)
                        &&& self.listeners()[k] == (subscriber.nodes@, all[i].1)
                    },
                forall|k: (Seq<char>, u32)|
                    !registers(all.subrange(rest@.len() as int, all.len() as int), sid, k)
                        ==> #[trigger] agree_at(self.listeners(), start, k),
            decreases rest@.len(),
        {
            let ghost before = self.listeners();
            let ghost m = rest@.len() - 1;
            let (key, cb) = rest.pop().unwrap();
            assert((key, cb) == all[m]);
            self.add_event_listener(key, cb, subscriber.duplicate());
            assert forall|i: int| rest@.len() <= i < all.len() implies {
                let k = (#[trigger] all[i].0@, sid);
                &&& self.listeners().contains_key(k)
                &&& self.listeners()[k] == (subscriber.nodes@, all[i].1)
            } by {
                if i != m {
                    assert(all[i].0@ != all[m].0@);
                }
            }
            assert forall|k: (Seq<char>, u32)|
                !registers(all.subrange(rest@.len() as int, all.len() as int), sid, k) implies #[trigger] agree_at(
                    self.listeners(),
                    start,
                    k,
                ) by {
                let later = all.subrange(m + 1, all.len() as int);
                let now = all.subrange(m, all.len() as int);
                assert(now[0] == all[m]);
                if k == (all[m].0@, sid) {
                    assert(registers(now, sid, k));
                }
                if registers(later, sid, k) {
                    let j = choose|j: int| 0 <= j < later.len() && later[j].0@ == k.0 && k.1 == sid;
                    assert(now[j + 1] == later[j]);
                    assert(registers(now, sid, k));
                }
                assert(agree_at(before, start, k));
            }
        }
        assert(all.subrange(rest@.len() as int, all.len() as int) =~= listeners@);
        assert forall|k: (Seq<char>, u32)| !registers(listeners@, sid, k) implies #[trigger] agree_at(
            self.listeners(),
            start,
            k,
        ) by {
            assert(!registers(all.subrange(rest@.len() as int, all.len() as int), sid, k));
        }
    }

    /// The listener for the event `key` sent by the object with this id, if any
    pub fn get_listener(&self, key: &str, id: u32) -> (res: Option<&Listener<C>>)
        requires
            self.wf(),
        ensures
            match res {
                Some(l) => self.listeners().contains_key((key@, id)) && self.listeners()[(key@, id)] == (
                    l.subscriber.nodes@,
                    l.callback,
                ) && l.key@ == key@ && l.id == id,
                None => !self.listeners().contains_key((key@, id)),
            },
    {
        let k = key.to_owned();
        match self.position(&k, id) {
            Some(i) => {
                proof {
                    lemma_keyed_map_at(self.entries(), i as int);
                }
                Some(&self.event_listeners[i])
            },
            None => None,
        }
    }
}

/// A listener that a layer registers under the path it was given is found under the
/// layer's own id: the path ends with the layer.
pub proof fn lemma_listener_found_under_layer_id(parent: Seq<NodeID>, id: u32, type_id: GuiType)
    ensures
        child_path(parent, id, type_id).len() > 0,
        child_path(parent, id, type_id).last().id == id,
{
}

/// What the stage registers is what it finds: after registering a callback for an event
/// key and subscriber, the lookup for that key and the subscriber's id yields that
/// subscriber and callback, and the lookups for other keys or ids are unchanged.
pub proof fn lemma_listener_read_after_write<C>(
    before: Map<(Seq<char>, u32), (Seq<NodeID>, C)>,
    key: Seq<char>,
    path: Seq<NodeID>,
    cb: C,
    other: (Seq<char>, u32),
)
    requires
        path.len() > 0,
    ensures
        before.insert((key, path.last().id), (path, cb))[(key, path.last().id)] == (path, cb),
        other != (key, path.last().id) ==> (before.insert((key, path.last().id), (path, cb)).contains_key(
            other,
        ) == before.contains_key(other)),
        (other != (key, path.last().id) && before.contains_key(other)) ==> before.insert(
            (key, path.last().id),
            (path, cb),
        )[other] == before[other],
{
}

} // verus!
