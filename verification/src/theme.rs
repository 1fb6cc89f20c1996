//! The registries behind themes: named font data, and the themes a user can pick from.
use vstd::prelude::*;
use std::collections::HashMap;
use crate::keyed::{
    has_key, keyed_map, lemma_keyed_map_at, lemma_keyed_map_empty, lemma_keyed_map_push,
    lemma_keyed_map_remove, lemma_keyed_map_update, unique_keys,
};

verus! {

broadcast use vstd::std_specs::hash::group_hash_axioms;

/// Id of the light theme
pub const LIGHT_THEME: u32 = 1;
/// Id of the dark theme
pub const DARK_THEME: u32 = 2;

/// Simple enum to define Theme type. Possibly useful for a theme selector
#[derive(Debug, Clone, Copy, PartialEq, Eq, Hash, Structural)]
pub enum ThemeType {
    /// light theme
    Light,
    /// dark theme
    Dark,
}

/// A helper for creating themes. The themes themselves hold colors and sizes, which the
/// library leaves to the application.
pub struct ThemeBuilder {}

// ************************************************************************************
// Fonts
// ************************************************************************************

/// The name and bytes of a stored font.
pub open spec fn font_entry(e: (String, Vec<u8>)) -> (Seq<char>, Seq<u8>) {
    (e.0@, e.1@)
}

/// A holder of loaded Fonts
pub struct Fonts {
    /// The font bytes by name; no two entries have the same name
    font_data: Vec<(String, Vec<u8>)>,
}

impl Fonts {
    /// The stored entries
    pub closed spec fn entries(&self) -> Seq<(Seq<char>, Seq<u8>)> {
        self.font_data@.map_values(|e: (String, Vec<u8>)| font_entry(e))
    }

    /// The font data, by name
    pub open spec fn fonts(&self) -> Map<Seq<char>, Seq<u8>> {
        keyed_map(self.entries())
    }

    /// No two fonts have the same name
    pub open spec fn wf(&self) -> bool {
        unique_keys(self.entries())
    }

    /// Constructor
    pub fn new() -> (res: Self)
        ensures
            res.wf(),
            res.fonts() == Map::<Seq<char>, Seq<u8>>::empty(),
    {
        let res = Fonts { font_data: Vec::new() };
        assert(res.entries() =~= Seq::empty());
        proof {
            lemma_keyed_map_empty::<Seq<char>, Seq<u8>>();
        }
        res
    }

    /// Purge all data if loading new fonts (when loading new Theme)
    pub fn reset(&mut self)
        ensures
            final(self).wf(),
            final(self).fonts() == Map::<Seq<char>, Seq<u8>>::empty(),
    {
        self.font_data = Vec::new();
        assert(self.entries() =~= Seq::empty());
        proof {
            lemma_keyed_map_empty::<Seq<char>, Seq<u8>>();
        }
    }

    /// The position of the font with this name
    fn position(&self, name: &String) -> (res: Option<usize>)
        ensures
            match res {
                Some(i) => i < self.font_data@.len() && self.entries()[i as int].0 == name@,
                None => !has_key(self.entries(), name@),
            },
    {
        let mut i: usize = 0;
        while i < self.font_data.len()
            invariant
                i <= self.font_data@.len(),
                forall|k: int| 0 <= k < i ==> self.entries()[k].0 != name@,
            decreases self.font_data@.len() - i,
        {
            if self.font_data[i].0 == *name {
                return Some(i);
            }
            i = i + 1;
        }
        None
    }

    /// Check to see if font already registered before trying to add it again.
    pub fn has_font(&self, name: &str) -> (res: bool)
        requires
            self.wf(),
        ensures
            res == self.fonts().contains_key(name@),
    {
        match self.position(&name.to_owned()) {
            Some(i) => {
                proof {
                    lemma_keyed_map_at(self.entries(), i as int);
                }
                true
            },
            None => false,
        }
    }

    /// Method for adding font bytes; a font with the same name is replaced
    pub fn add_font(&mut self, name: &str, bytes: Vec<u8>)
        requires
            old(self).wf(),
        ensures
            final(self).wf(),
            final(self).fonts() == old(self).fonts().insert(name@, bytes@),
    {
        let key = name.to_owned();
        let ghost before = self.entries();
        let ghost entry = (name@, bytes@);
        match self.position(&key) {
            Some(i) => {
                self.font_data.set(i, (key, bytes));
                proof {
                    lemma_keyed_map_update(before, i as int, entry.1);
                    assert(self.entries() =~= before.update(i as int, (before[i as int].0, entry.1)));
                }
            },
            None => {
                self.font_data.push((key, bytes));
                proof {
                    lemma_keyed_map_push(before, entry.0, entry.1);
                    assert(self.entries() =~= before.push(entry));
                }
            },
        }
    }

    /// Get the Vec<u8> data for a font
    pub fn get_font_data(&self, name: &str) -> (res: Option<Vec<u8>>)
        requires
            self.wf(),
        ensures
            match res {
                Some(data) => self.fonts().contains_key(name@) && data@ == self.fonts()[name@],
                None => !self.fonts().contains_key(name@),
            },
    {
        match self.position(&name.to_owned()) {
            Some(i) => {
                proof {
                    lemma_keyed_map_at(self.entries(), i as int);
                }
                Some(self.font_data[i].1.clone())
            },
            None => None,
        }
    }
}

/// The fonts of a theme: the bytes of the font that text is drawn with, and the named
/// fonts that can take its place.
pub struct ThemeFonts {
    /// The bytes of the font that text is drawn with
    pub default_font: Vec<u8>,
    /// The named fonts
    pub fonts: Fonts,
}

impl ThemeFonts {
    /// Constructor: no named fonts yet
    pub fn new(default_font: Vec<u8>) -> (res: Self)
        ensures
            res.default_font@ == default_font@,
            res.fonts.wf(),
            res.fonts.fonts() == Map::<Seq<char>, Seq<u8>>::empty(),
    {
        ThemeFonts { default_font, fonts: Fonts::new() }
    }

    /// Fetch saved font bytes: those of the named font, or those of the default font when
    /// no font has that name.
    pub fn data_for_font(&self, name: &str) -> (res: Vec<u8>)
        requires
            self.fonts.wf(),
        ensures
            res@ == if self.fonts.fonts().contains_key(name@) {
                self.fonts.fonts()[name@]
            } else {
                self.default_font@
            },
    {
        match self.fonts.get_font_data(name) {
            Some(data) => data,
            None => self.default_font.clone(),
        }
    }

    /// Draw text with the named font from now on. Returns false, and changes nothing, when
    /// no font has that name.
    pub fn set_default_font(&mut self, name: &str) -> (res: bool)
        requires
            old(self).fonts.wf(),
        ensures
            res == old(self).fonts.fonts().contains_key(name@),
            res ==> final(self).default_font@ == old(self).fonts.fonts()[name@],
            !res ==> final(self).default_font@ == old(self).default_font@,
            final(self).fonts.wf(),
            final(self).fonts.fonts() == old(self).fonts.fonts(),
    {
        match self.fonts.get_font_data(name) {
            Some(data) => {
                self.default_font = data;
                true
            },
            None => false,
        }
    }
}

// ************************************************************************************
// ThemePicker
// ************************************************************************************

/// The id and name of a listed theme.
pub open spec fn listed(e: (u32, String)) -> (u32, Seq<char>) {
    (e.0, e.1@)
}

/// The list without the entry for `id` (lists have one entry per id).
pub open spec fn unlisted(list: Seq<(u32, Seq<char>)>, id: u32) -> Seq<(u32, Seq<char>)> {
    if has_key(list, id) {
        list.remove(choose|j: int| 0 <= j < list.len() && list[j].0 == id)
    } else {
        list
    }
}

/// A holder of available themes that are wrapped in callback functions that are loaded
/// and selected at runtime.
pub struct ThemePicker<F> {
    /// The theme that was last loaded/used. When load_theme is called, this value is changed.
    theme_id: u32,
    /// A helper array that can be used to show the list of themes that have been added.
    theme_list: Vec<(u32, String)>,
    /// The callbacks that build each theme, by id
    theme_map: HashMap<u32, F>,
}

impl<F> ThemePicker<F> {
    /// The listed themes, in the order they were (last) added
    pub closed spec fn list(&self) -> Seq<(u32, Seq<char>)> {
        self.theme_list@.map_values(|e: (u32, String)| listed(e))
    }

    /// The theme builders, by id
    pub closed spec fn builders(&self) -> Map<u32, F> {
        self.theme_map@
    }

    /// The id of the theme that was last loaded
    pub closed spec fn current(&self) -> u32 {
        self.theme_id
    }

    /// Ids are unique in the list, and the list and the table of builders hold the same ids.
    pub closed spec fn wf(&self) -> bool {
        &&& unique_keys(self.list())
        &&& forall|id: u32| has_key(self.list(), id) <==> self.theme_map@.contains_key(id)
    }

    /// Constructor
    pub fn new() -> (res: Self)
        ensures
            res.wf(),
            res.current() == 0,
            res.list().len() == 0,
            res.builders() == Map::<u32, F>::empty(),
    {
        let res = ThemePicker { theme_id: 0, theme_list: Vec::new(), theme_map: HashMap::new() };
        assert(res.list() =~= Seq::empty());
        res
    }

    /// Register the builder `cb` for a theme under `id` and `name`. A theme with the same id
    /// is replaced, and its list entry moves to the end with the new name.
    pub fn add_theme(&mut self, id: u32, name: &str, cb: F)
        requires
            old(self).wf(),
        ensures
            final(self).wf(),
            final(self).builders() == old(self).builders().insert(id, cb),
            final(self).list() == unlisted(old(self).list(), id).push((id, name@)),
            final(self).current() == old(self).current(),
    {
        let ghost old_map = self.theme_map@;
        let ghost old_list = self.list();
        // the builder table
        self.theme_map.insert(id, cb);
        // the list
        let listed_at = id_position(&self.theme_list, id);
        proof {
            match listed_at {
                Some(j) => assert(old_list[j as int].0 == id),
                None => {
                    assert forall|k: int| 0 <= k < old_list.len() implies old_list[k].0 != id by {
                        assert(self.theme_list@[k].0 != id || !has_key(self.theme_list@, id));
                        if self.theme_list@[k].0 == id {
                            assert(has_key(self.theme_list@, id));
                        }
                    }
                },
            }
        }
        let ghost mid = old_list;
        match listed_at {
            Some(j) => {
                // Theme already added with this id, so remove it from the list
                self.theme_list.remove(j);
                proof {
                    assert(has_key(old_list, id)) by {
                        assert(old_list[j as int].0 == id);
                    }
                    let c = choose|c: int| 0 <= c < old_list.len() && old_list[c].0 == id;
                    if c != j {
                        if c < j {
                            assert(old_list[c].0 != old_list[j as int].0);
                        } else {
                            assert(old_list[j as int].0 != old_list[c].0);
                        }
                    }
                    assert(self.list() =~= old_list.remove(j as int));
                    lemma_keyed_map_remove(old_list, j as int);
                }
            },
            None => {},
        }
        let ghost removed = self.list();
        assert(removed == unlisted(old_list, id));
        assert(!has_key(removed, id)) by {
            if has_key(removed, id) {
                let k = choose|k: int| 0 <= k < removed.len() && removed[k].0 == id;
                match listed_at {
                    Some(j) => {
                        let k2 = if k < j { k } else { k + 1 };
                        assert(old_list[k2].0 == id);
                        if k2 != j {
                            if k2 < j {
                                assert(old_list[k2].0 != old_list[j as int].0);
                            } else {
                                assert(old_list[j as int].0 != old_list[k2].0);
                            }
                        }
                    },
                    None => {},
                }
            }
        }
        self.theme_list.push((id, name.to_owned()));
        proof {
            assert(self.list() =~= removed.push((id, name@)));
            lemma_keyed_map_push(removed, id, name@);
            // the same ids in both tables
            assert forall|x: u32| has_key(self.list(), x) <==> self.theme_map@.contains_key(x) by {
                if x == id {
                    assert(self.list()[self.list().len() - 1].0 == id);
                } else {
                    // for other ids, both tables keep their entries
                    if has_key(self.list(), x) {
                        let k = choose|k: int| 0 <= k < self.list().len() && self.list()[k].0 == x;
                        assert(removed[k].0 == x);
                        match listed_at {
                            Some(j) => {
                                let k2 = if k < j { k } else { k + 1 };
                                assert(old_list[k2].0 == x);
                            },
                            None => assert(old_list[k].0 == x),
                        }
                        assert(has_key(old_list, x));
                    }
                    if old_map.contains_key(x) {
                        assert(has_key(old_list, x));
                        let k = choose|k: int| 0 <= k < old_list.len() && old_list[k].0 == x;
                        match listed_at {
                            Some(j) => {
                                assert(k != j);
                                let k2 = if k < j { k } else { k - 1 };
                                assert(removed[k2].0 == x);
                                assert(self.list()[k2].0 == x);
                            },
                            None => {
                                assert(self.list()[k].0 == x);
                            },
                        }
                    }
                }
            }
        }
    }

    /// Load the theme with this id: when it is registered, it becomes the current theme and
    /// its builder is called (which asks that the builder's own precondition, if it has one,
    /// holds).
    pub fn load_theme<T>(&mut self, id: u32) -> (res: Option<T>) where F: Fn() -> T
        requires
            old(self).wf(),
            old(self).builders().contains_key(id) ==> call_requires(old(self).builders()[id], ()),
        ensures
            final(self).wf(),
            final(self).builders() == old(self).builders(),
            final(self).list() == old(self).list(),
            match res {
                Some(t) => old(self).builders().contains_key(id) && final(self).current() == id
                    && call_ensures(old(self).builders()[id], (), t),
                None => !old(self).builders().contains_key(id) && final(self).current() == old(
                    self,
                ).current(),
            },
    {
        match self.theme_map.get(&id) {
            Some(cb) => {
                self.theme_id = id;
                let theme = cb();
                Some(theme)
            },
            None => None,
        }
    }

    /// Returns a reference to the list of loaded themes. This is useful for
    /// displaying a list of available themes
    pub fn get_theme_list(&self) -> (res: &Vec<(u32, String)>)
        ensures
            res@.map_values(|e: (u32, String)| listed(e)) == self.list(),
    {
        &self.theme_list
    }

    /// The id of the theme that was last loaded
    pub fn get_theme_id(&self) -> (res: u32)
        ensures
            res == self.current(),
    {
        self.theme_id
    }
}

/// The position of the entry for `id`, if any
fn id_position<V>(v: &Vec<(u32, V)>, id: u32) -> (res: Option<usize>)
    ensures
        match res {
            Some(i) => i < v@.len() && v@[i as int].0 == id,
            None => !has_key(v@, id),
        },
{
    let mut i: usize = 0;
    while i < v.len()
        invariant
            i <= v@.len(),
            forall|k: int| 0 <= k < i ==> v@[k].0 != id,
        decreases v@.len() - i,
    {
        if v[i].0 == id {
            return Some(i);
        }
        i = i + 1;
    }
    None
}

/// After a theme is added it is listed exactly once, as the last entry, and loading it
/// finds its builder: what is registered is what is loaded.
pub proof fn lemma_added_theme_is_listed_last<F>(
    list: Seq<(u32, Seq<char>)>,
    builders: Map<u32, F>,
    id: u32,
    name: Seq<char>,
    cb: F,
)
    requires
        unique_keys(list),
    ensures
        unlisted(list, id).push((id, name)).last() == (id, name),
        !has_key(unlisted(list, id), id),
        unique_keys(unlisted(list, id).push((id, name))),
        forall|k: u32| k != id ==> (has_key(unlisted(list, id), k) == has_key(list, k)),
        builders.insert(id, cb).contains_key(id),
        builders.insert(id, cb)[id] == cb,
{
    let r = unlisted(list, id);
    if has_key(list, id) {
        let c = choose|c: int| 0 <= c < list.len() && list[c].0 == id;
        assert(r == list.remove(c));
        assert forall|k: int| 0 <= k < r.len() implies #[trigger] r[k] == if k < c {
            list[k]
        } else {
            list[k + 1]
        } by {}
        if has_key(r, id) {
            let k = choose|k: int| 0 <= k < r.len() && r[k].0 == id;
            let k2 = if k < c { k } else { k + 1 };
            assert(list[k2].0 == id);
            if k2 < c {
                assert(list[k2].0 != list[c].0);
            } else {
                assert(list[c].0 != list[k2].0);
            }
        }
        assert forall|i: int, j: int| 0 <= i < j < r.len() implies r[i].0 != r[j].0 by {
            let i2 = if i < c { i } else { i + 1 };
            let j2 = if j < c { j } else { j + 1 };
            assert(i2 < j2);
            assert(list[i2].0 != list[j2].0);
        }
        assert forall|k: u32| k != id implies (has_key(r, k) == has_key(list, k)) by {
            if has_key(list, k) {
                let j = choose|j: int| 0 <= j < list.len() && list[j].0 == k;
                if j < c {
                    assert(r[j].0 == k);
                } else {
                    assert(j != c);
                    assert(r[j - 1].0 == k);
                }
            }
            if has_key(r, k) {
                let j = choose|j: int| 0 <= j < r.len() && r[j].0 == k;
                if j < c {
                    assert(list[j].0 == k);
                } else {
                    assert(list[j + 1].0 == k);
                }
            }
        }
    }
    let t = r.push((id, name));
    assert forall|i: int, j: int| 0 <= i < j < t.len() implies t[i].0 != t[j].0 by {
        if j == r.len() {
            assert(r[i].0 != id);
        } else {
            assert(r[i].0 != r[j].0);
        }
    }
}

/// Re-adding a listed theme takes its entry out of the list and keeps the other entries
/// in their order: the list without the entry at `k` (the one for `id`), so the entries
/// before it stay where they are and those after it move up by one.
pub proof fn lemma_unlisted_keeps_order(list: Seq<(u32, Seq<char>)>, id: u32, k: int)
    requires
        unique_keys(list),
        0 <= k < list.len(),
        list[k].0 == id,
    ensures
        unlisted(list, id) == list.remove(k),
        unlisted(list, id).len() == list.len() - 1,
        forall|i: int| 0 <= i < k ==> #[trigger] unlisted(list, id)[i] == list[i],
        forall|i: int| k <= i < list.len() - 1 ==> #[trigger] unlisted(list, id)[i] == list[i + 1],
{
    assert(has_key(list, id));
    let c = choose|c: int| 0 <= c < list.len() && list[c].0 == id;
    if c != k {
        if c < k {
            assert(list[c].0 != list[k].0);
        } else {
            assert(list[k].0 != list[c].0);
        }
    }
}

} // verus!
