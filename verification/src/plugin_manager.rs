use vstd::prelude::*;
use crate::error::{text, AppError};
use crate::models::copy_opt_string;
use crate::text::{push_str, string_of};

verus! {

/// What a plugin says of itself. The configuration schema is JSON text.
#[derive(Debug, Clone)]
pub struct PluginMetadata {
    pub id: String,
    pub name: String,
    pub version: String,
    pub author: String,
    pub description: String,
    pub dependencies: Vec<String>,
    pub config_schema: Option<String>,
}

/// The stored configuration of a plugin; `config` is JSON text.
#[derive(Debug, Clone)]
pub struct PluginConfig {
    pub plugin_id: String,
    pub enabled: bool,
    pub config: Option<String>,
}

/// A registered plugin: what it says of itself and its configuration.
#[derive(Debug, Clone)]
pub struct PluginEntry {
    pub metadata: PluginMetadata,
    pub config: PluginConfig,
}

/// A copy of a configuration.
pub fn copy_config(c: &PluginConfig) -> (r: PluginConfig)
    ensures
        r == *c,
{
    PluginConfig { plugin_id: c.plugin_id.clone(), enabled: c.enabled, config: copy_opt_string(&c.config) }
}

/// The registered plugins by id.
pub open spec fn entry_map(s: Seq<PluginEntry>) -> Map<Seq<char>, PluginEntry>
    decreases s.len(),
{
    if s.len() == 0 {
        Map::empty()
    } else {
        entry_map(s.drop_last()).insert(s.last().metadata.id@, s.last())
    }
}

/// The ids of a sequence of entries, in order.
pub open spec fn entry_ids(s: Seq<PluginEntry>) -> Seq<Seq<char>> {
    s.map_values(|e: PluginEntry| e.metadata.id@)
}

/// No id occurs twice.
pub open spec fn entries_wf(s: Seq<PluginEntry>) -> bool {
    entry_ids(s).no_duplicates()
}

pub proof fn lemma_entry_map_dom(s: Seq<PluginEntry>)
    ensures
        forall|k: Seq<char>| #[trigger] entry_map(s).dom().contains(k) <==> entry_ids(s).contains(k),
    decreases s.len(),
{
    if s.len() > 0 {
        let t = s.drop_last();
        lemma_entry_map_dom(t);
        let ids = entry_ids(s);
        assert(entry_ids(t) =~= ids.drop_last());
        assert forall|k: Seq<char>| #[trigger] entry_map(s).dom().contains(k) <==> entry_ids(s).contains(k) by {
            if k == s.last().metadata.id@ {
                assert(ids[s.len() - 1] == k);
            } else {
                assert(entry_map(s).dom().contains(k) == entry_map(t).dom().contains(k));
                if entry_ids(t).contains(k) {
                    let j = choose|j: int| 0 <= j < entry_ids(t).len() && entry_ids(t)[j] == k;
                    assert(ids[j] == k);
                }
                if ids.contains(k) {
                    let j = choose|j: int| 0 <= j < ids.len() && ids[j] == k;
                    assert(j != s.len() - 1);
                    assert(entry_ids(t)[j] == k);
                }
            }
        }
    }
}

pub proof fn lemma_entry_map_at(s: Seq<PluginEntry>, i: int)
    requires
        entries_wf(s),
        0 <= i < s.len(),
    ensures
        entry_map(s).dom().contains(s[i].metadata.id@),
        entry_map(s)[s[i].metadata.id@] == s[i],
    decreases s.len(),
{
    let t = s.drop_last();
    assert(entry_ids(t) =~= entry_ids(s).drop_last());
    if i < s.len() - 1 {
        assert(entries_wf(t));
        lemma_entry_map_at(t, i);
        assert(entry_ids(s)[i] == s[i].metadata.id@);
        assert(entry_ids(s)[s.len() - 1] == s.last().metadata.id@);
        assert(s[i].metadata.id@ != s.last().metadata.id@);
    }
}

pub proof fn lemma_entry_map_update(s: Seq<PluginEntry>, i: int, e: PluginEntry)
    requires
        entries_wf(s),
        0 <= i < s.len(),
        e.metadata.id@ == s[i].metadata.id@,
    ensures
        entry_map(s.update(i, e)) == entry_map(s).insert(e.metadata.id@, e),
        entry_ids(s.update(i, e)) == entry_ids(s),
    decreases s.len(),
{
    let u = s.update(i, e);
    assert(entry_ids(u) =~= entry_ids(s));
    let t = s.drop_last();
    assert(entry_ids(t) =~= entry_ids(s).drop_last());
    if i == s.len() - 1 {
        assert(u.drop_last() =~= t);
        lemma_entry_map_dom(t);
        assert(!entry_ids(t).contains(e.metadata.id@)) by {
            if entry_ids(t).contains(e.metadata.id@) {
                let j = choose|j: int| 0 <= j < entry_ids(t).len() && entry_ids(t)[j] == e.metadata.id@;
                assert(entry_ids(s)[j] == entry_ids(s)[s.len() - 1]);
            }
        }
        assert(entry_map(u) =~= entry_map(s).insert(e.metadata.id@, e));
    } else {
        assert(u.drop_last() =~= t.update(i, e));
        assert(entries_wf(t));
        lemma_entry_map_update(t, i, e);
        assert(entry_ids(s)[i] == s[i].metadata.id@);
        assert(entry_ids(s)[s.len() - 1] == s.last().metadata.id@);
        assert(s.last().metadata.id@ != e.metadata.id@);
        assert(u.last() == s.last());
        assert(entry_map(u) =~= entry_map(s).insert(e.metadata.id@, e));
    }
}

pub proof fn lemma_entry_map_remove(s: Seq<PluginEntry>, i: int)
    requires
        entries_wf(s),
        0 <= i < s.len(),
    ensures
        entry_map(s.remove(i)) == entry_map(s).remove(s[i].metadata.id@),
        entries_wf(s.remove(i)),
    decreases s.len(),
{
    let r = s.remove(i);
    let t = s.drop_last();
    assert(entry_ids(t) =~= entry_ids(s).drop_last());
    assert(entries_wf(t));
    assert(entry_ids(r) =~= entry_ids(s).remove(i));
    assert(entries_wf(r)) by {
        assert forall|a: int, b: int| 0 <= a < b < entry_ids(r).len() implies entry_ids(r)[a] != entry_ids(r)[b] by {
            let a2 = if a < i { a } else { a + 1 };
            let b2 = if b < i { b } else { b + 1 };
            assert(entry_ids(r)[a] == entry_ids(s)[a2]);
            assert(entry_ids(r)[b] == entry_ids(s)[b2]);
        }
    }
    if i == s.len() - 1 {
        assert(r =~= t);
        lemma_entry_map_dom(t);
        assert(!entry_ids(t).contains(s[i].metadata.id@)) by {
            if entry_ids(t).contains(s[i].metadata.id@) {
                let j = choose|j: int| 0 <= j < entry_ids(t).len() && entry_ids(t)[j] == s[i].metadata.id@;
                assert(entry_ids(s)[j] == entry_ids(s)[i]);
            }
        }
        assert(entry_map(r) =~= entry_map(s).remove(s[i].metadata.id@));
    } else {
        assert(r.drop_last() =~= t.remove(i));
        assert(r.last() == s.last());
        lemma_entry_map_remove(t, i);
        assert(entry_ids(s)[i] == s[i].metadata.id@);
        assert(entry_ids(s)[s.len() - 1] == s.last().metadata.id@);
        assert(s.last().metadata.id@ != s[i].metadata.id@);
        assert(entry_map(r) =~= entry_map(s).remove(s[i].metadata.id@));
    }
}

/// The registered plugins and their configurations, by plugin id. The
/// plugin objects themselves, and the store of configurations, are the
/// caller's: this keeps what the manager decides over them.
pub struct PluginManager {
    entries: Vec<PluginEntry>,
}

/// The text of a refused registration: `Missing dependency: <id>`.
pub open spec fn missing_dependency_text(dep: Seq<char>) -> Seq<char> {
    "Missing dependency: "@ + dep
}

/// The message of a refused registration.
pub fn missing_dependency_message(dep: &str) -> (m: String)
    ensures
        m@ == missing_dependency_text(dep@),
{
    let mut out: Vec<char> = Vec::new();
    push_str(&mut out, "Missing dependency: ");
    push_str(&mut out, dep);
    string_of(&out)
}

/// The plugins after the one with this id, where registered, is turned on or
/// off.
pub open spec fn with_enabled(m: Map<Seq<char>, PluginEntry>, id: Seq<char>, enabled: bool) -> Map<Seq<char>, PluginEntry> {
    if m.dom().contains(id) {
        let e = m[id];
        m.insert(id, PluginEntry {
            metadata: e.metadata,
            config: PluginConfig { plugin_id: e.config.plugin_id, enabled, config: e.config.config },
        })
    } else {
        m
    }
}

/// Turning a plugin off and then on again leaves the plugins as turning it on
/// alone does; a registered plugin that was turned on is enabled, with its
/// settings kept.
pub proof fn law_disable_then_enable(m: Map<Seq<char>, PluginEntry>, id: Seq<char>)
    ensures
        with_enabled(with_enabled(m, id, false), id, true) == with_enabled(m, id, true),
        m.dom().contains(id) ==> with_enabled(m, id, true)[id].config.enabled,
        m.dom().contains(id) ==> with_enabled(m, id, true)[id].config.config == m[id].config.config,
{
    assert(with_enabled(with_enabled(m, id, false), id, true) =~= with_enabled(m, id, true));
}

impl View for PluginManager {
    type V = Map<Seq<char>, PluginEntry>;

    closed spec fn view(&self) -> Map<Seq<char>, PluginEntry> {
        entry_map(self.entries@)
    }
}

impl PluginManager {
    /// No plugin is registered twice.
    pub closed spec fn wf(&self) -> bool {
        entries_wf(self.entries@)
    }

    /// The order in which the plugins were registered.
    pub closed spec fn order(&self) -> Seq<Seq<char>> {
        entry_ids(self.entries@)
    }

    pub fn new() -> (m: PluginManager)
        ensures
            m.wf(),
            m@ == Map::<Seq<char>, PluginEntry>::empty(),
            m.order() == Seq::<Seq<char>>::empty(),
    {
        let m = PluginManager { entries: Vec::new() };
        assert(entry_ids(m.entries@) =~= Seq::<Seq<char>>::empty());
        m
    }

    fn find(&self, id: &str) -> (r: Option<usize>)
        requires
            self.wf(),
        ensures
            r matches Some(i) ==> i < self.entries@.len() && self.entries@[i as int].metadata.id@ == id@,
            r is None ==> !self@.dom().contains(id@),
    {
        let key = text(id);
        let n = self.entries.len();
        let mut i: usize = 0;
        while i < n
            invariant
                n == self.entries@.len(),
                key@ == id@,
                i <= n,
                forall|j: int| 0 <= j < i ==> self.entries@[j].metadata.id@ != id@,
            decreases n - i,
        {
            if self.entries[i].metadata.id == key {
                return Some(i);
            }
            i = i + 1;
        }
        proof {
            lemma_entry_map_dom(self.entries@);
            if entry_ids(self.entries@).contains(id@) {
                let j = choose|j: int| 0 <= j < entry_ids(self.entries@).len() && entry_ids(self.entries@)[j] == id@;
                assert(self.entries@[j].metadata.id@ != id@);
            }
        }
        None
    }

    /// Whether a plugin with this id is registered.
    pub fn is_registered(&self, id: &str) -> (b: bool)
        requires
            self.wf(),
        ensures
            b == self@.dom().contains(id@),
    {
        match self.find(id) {
            Some(i) => {
                proof {
                    lemma_entry_map_at(self.entries@, i as int);
                }
                true
            },
            None => false,
        }
    }

    /// The first dependency that is not registered, if any.
    pub fn missing_dependency(&self, deps: &Vec<String>) -> (r: Option<usize>)
        requires
            self.wf(),
        ensures
            r matches Some(k) ==> k < deps@.len() && !self@.dom().contains(deps@[k as int]@)
                && forall|j: int| 0 <= j < k ==> self@.dom().contains(#[trigger] deps@[j]@),
            r is None ==> forall|j: int| 0 <= j < deps@.len() ==> self@.dom().contains(#[trigger] deps@[j]@),
    {
        let n = deps.len();
        let mut k: usize = 0;
        while k < n
            invariant
                self.wf(),
                n == deps@.len(),
                k <= n,
                forall|j: int| 0 <= j < k ==> self@.dom().contains(#[trigger] deps@[j]@),
            decreases n - k,
        {
            if !self.is_registered(deps[k].as_str()) {
                return Some(k);
            }
            k = k + 1;
        }
        None
    }

    /// Checks a registration before the plugin is initialised: every
    /// dependency must be registered already, else the first one missing is
    /// reported. The configuration is the stored one, or a new enabled one
    /// without settings.
    pub fn prepare_registration(&self, metadata: &PluginMetadata, stored: Option<PluginConfig>) -> (r: Result<PluginConfig, AppError>)
        requires
            self.wf(),
        ensures
            r is Ok <==> forall|j: int| 0 <= j < metadata.dependencies@.len()
                ==> self@.dom().contains(#[trigger] metadata.dependencies@[j]@),
            r matches Ok(c) ==> match stored {
                Some(s) => c == s,
                None => c.plugin_id@ == metadata.id@ && c.enabled && c.config is None,
            },
            r matches Err(e) ==> exists|k: int| 0 <= k < metadata.dependencies@.len()
                && !self@.dom().contains(metadata.dependencies@[k]@)
                && (forall|j: int| 0 <= j < k ==> self@.dom().contains(#[trigger] metadata.dependencies@[j]@))
                && (e matches AppError::Validation(m) && m@ == missing_dependency_text(metadata.dependencies@[k]@)),
    {
        match self.missing_dependency(&metadata.dependencies) {
            Some(k) => {
                let msg = missing_dependency_message(metadata.dependencies[k].as_str());
                Err(AppError::Validation(msg))
            },
            None => match stored {
                Some(s) => Ok(s),
                None => Ok(PluginConfig { plugin_id: metadata.id.clone(), enabled: true, config: None }),
            },
        }
    }

    /// Records a plugin that has been initialised (and started, where its
    /// configuration enables it). A plugin with the same id is replaced in
    /// its place; a new one comes last.
    pub fn insert(&mut self, metadata: PluginMetadata, config: PluginConfig)
        requires
            old(self).wf(),
        ensures
            final(self).wf(),
            final(self)@ == old(self)@.insert(metadata.id@, (PluginEntry { metadata, config })),
            old(self)@.dom().contains(metadata.id@) ==> final(self).order() == old(self).order(),
            !old(self)@.dom().contains(metadata.id@) ==> final(self).order() == old(self).order().push(metadata.id@),
    {
        let ghost id = metadata.id@;
        let e = PluginEntry { metadata, config };
        match self.find(e.metadata.id.as_str()) {
            Some(i) => {
                proof {
                    lemma_entry_map_update(self.entries@, i as int, e);
                    lemma_entry_map_at(self.entries@, i as int);
                }
                self.entries.set(i, e);
                proof {
                    assert(entries_wf(self.entries@));
                }
            },
            None => {
                proof {
                    lemma_entry_map_dom(self.entries@);
                }
                let ghost before = self.entries@;
                self.entries.push(e);
                proof {
                    assert(self.entries@.drop_last() =~= before);
                    assert(entry_ids(self.entries@) =~= entry_ids(before).push(id));
                    assert(entries_wf(self.entries@)) by {
                        assert forall|a: int, b: int| 0 <= a < b < entry_ids(self.entries@).len() implies entry_ids(self.entries@)[a] != entry_ids(self.entries@)[b] by {
                            if b == before.len() {
                                assert(entry_ids(before)[a] == entry_ids(self.entries@)[a]);
                            }
                        }
                    }
                }
            },
        }
    }

    /// Forgets a plugin. Returns whether it was registered (the caller then
    /// stops it).
    pub fn unregister(&mut self, id: &str) -> (was: bool)
        requires
            old(self).wf(),
        ensures
            final(self).wf(),
            was == old(self)@.dom().contains(id@),
            final(self)@ == old(self)@.remove(id@),
    {
        match self.find(id) {
            Some(i) => {
                proof {
                    lemma_entry_map_remove(self.entries@, i as int);
                    lemma_entry_map_at(self.entries@, i as int);
                }
                self.entries.remove(i);
                true
            },
            None => {
                assert(old(self)@.remove(id@) =~= old(self)@);
                false
            },
        }
    }

    /// Turns a registered plugin on or off. Returns its new configuration,
    /// for the caller to store and to start or stop the plugin; `None`, with
    /// nothing changed, where no such plugin is registered.
    pub fn set_enabled(&mut self, id: &str, enabled: bool) -> (r: Option<PluginConfig>)
        requires
            old(self).wf(),
        ensures
            final(self).wf(),
            final(self).order() == old(self).order(),
            !old(self)@.dom().contains(id@) ==> r is None && final(self)@ == old(self)@,
            final(self)@ == with_enabled(old(self)@, id@, enabled),
            old(self)@.dom().contains(id@) ==> (r matches Some(c) && {
                let e = old(self)@[id@];
                &&& c.plugin_id == e.config.plugin_id
                &&& c.enabled == enabled
                &&& c.config == e.config.config
                &&& final(self)@ == old(self)@.insert(id@, (PluginEntry { metadata: e.metadata, config: c }))
            }),
    {
        match self.find(id) {
            Some(i) => {
                proof {
                    lemma_entry_map_at(self.entries@, i as int);
                }
                let mut e = self.entries.remove(i);
                e.config.enabled = enabled;
                let cfg = copy_config(&e.config);
                proof {
                    lemma_entry_map_update(old(self).entries@, i as int, e);
                }
                self.entries.insert(i, e);
                assert(self.entries@ =~= old(self).entries@.update(i as int, e));
                proof {
                    assert(entries_wf(self.entries@));
                }
                Some(cfg)
            },
            None => None,
        }
    }

    /// Replaces the settings of a registered plugin. Returns its new
    /// configuration, for the caller to store and to re-initialise the plugin
    /// (and start it where it is enabled); `None`, with nothing changed, where
    /// no such plugin is registered.
    pub fn set_settings(&mut self, id: &str, settings: String) -> (r: Option<PluginConfig>)
        requires
            old(self).wf(),
        ensures
            final(self).wf(),
            final(self).order() == old(self).order(),
            !old(self)@.dom().contains(id@) ==> r is None && final(self)@ == old(self)@,
            old(self)@.dom().contains(id@) ==> (r matches Some(c) && {
                let e = old(self)@[id@];
                &&& c.plugin_id == e.config.plugin_id
                &&& c.enabled == e.config.enabled
                &&& c.config == Some(settings)
                &&& final(self)@ == old(self)@.insert(id@, (PluginEntry { metadata: e.metadata, config: c }))
            }),
    {
        match self.find(id) {
            Some(i) => {
                proof {
                    lemma_entry_map_at(self.entries@, i as int);
                }
                let mut e = self.entries.remove(i);
                e.config.config = Some(settings);
                let cfg = copy_config(&e.config);
                proof {
                    lemma_entry_map_update(old(self).entries@, i as int, e);
                }
                self.entries.insert(i, e);
                assert(self.entries@ =~= old(self).entries@.update(i as int, e));
                proof {
                    assert(entries_wf(self.entries@));
                }
                Some(cfg)
            },
            None => None,
        }
    }

    /// The configuration of a registered plugin.
    pub fn get_plugin_config(&self, id: &str) -> (r: Option<PluginConfig>)
        requires
            self.wf(),
        ensures
            r is Some <==> self@.dom().contains(id@),
            r matches Some(c) ==> c == self@[id@].config,
    {
        match self.find(id) {
            Some(i) => {
                proof {
                    lemma_entry_map_at(self.entries@, i as int);
                }
                Some(copy_config(&self.entries[i].config))
            },
            None => None,
        }
    }

    /// What a registered plugin says of itself.
    pub fn get_plugin_metadata(&self, id: &str) -> (r: Option<&PluginMetadata>)
        requires
            self.wf(),
        ensures
            r is Some <==> self@.dom().contains(id@),
            r matches Some(m) ==> *m == self@[id@].metadata,
    {
        match self.find(id) {
            Some(i) => {
                proof {
                    lemma_entry_map_at(self.entries@, i as int);
                }
                Some(&self.entries[i].metadata)
            },
            None => None,
        }
    }

    /// The ids of the enabled plugins, in the order of registration: those
    /// that are told of activity and pomodoro events.
    pub fn enabled_ids(&self) -> (r: Vec<String>)
        requires
            self.wf(),
        ensures
            forall|k: Seq<char>| #[trigger] string_views(r@).contains(k)
                <==> (self@.dom().contains(k) && self@[k].config.enabled),
    {
        let n = self.entries.len();
        let mut out: Vec<String> = Vec::new();
        let mut i: usize = 0;
        while i < n
            invariant
                n == self.entries@.len(),
                i <= n,
                string_views(out@) == enabled_of(self.entries@.take(i as int)),
            decreases n - i,
        {
            assert(self.entries@.take(i + 1).drop_last() =~= self.entries@.take(i as int));
            if self.entries[i].config.enabled {
                out.push(self.entries[i].metadata.id.clone());
            }
            assert(string_views(out@) =~= enabled_of(self.entries@.take(i + 1)));
            i = i + 1;
        }
        proof {
            assert(self.entries@.take(n as int) =~= self.entries@);
            lemma_entry_map_dom(self.entries@);
            assert forall|k: Seq<char>| #[trigger] string_views(out@).contains(k)
                <==> (self@.dom().contains(k) && self@[k].config.enabled) by {
                lemma_enabled_of(self.entries@, k);
                if self@.dom().contains(k) {
                    let j = choose|j: int| 0 <= j < entry_ids(self.entries@).len() && entry_ids(self.entries@)[j] == k;
                    lemma_entry_map_at(self.entries@, j);
                }
                if exists|j: int| 0 <= j < self.entries@.len() && (#[trigger] self.entries@[j]).metadata.id@ == k && self.entries@[j].config.enabled {
                    let j = choose|j: int| 0 <= j < self.entries@.len() && (#[trigger] self.entries@[j]).metadata.id@ == k && self.entries@[j].config.enabled;
                    lemma_entry_map_at(self.entries@, j);
                }
            }
        }
        out
    }
}

/// The texts of a sequence of strings.
pub open spec fn string_views(s: Seq<String>) -> Seq<Seq<char>> {
    s.map_values(|x: String| x@)
}

/// The ids of the enabled entries, in order.
pub open spec fn enabled_of(s: Seq<PluginEntry>) -> Seq<Seq<char>>
    decreases s.len(),
{
    if s.len() == 0 {
        Seq::empty()
    } else {
        let rest = enabled_of(s.drop_last());
        if s.last().config.enabled { rest.push(s.last().metadata.id@) } else { rest }
    }
}

pub proof fn lemma_enabled_of(s: Seq<PluginEntry>, k: Seq<char>)
    ensures
        enabled_of(s).contains(k) <==> exists|j: int| 0 <= j < s.len() && (#[trigger] s[j]).metadata.id@ == k && s[j].config.enabled,
    decreases s.len(),
{
    if s.len() > 0 {
        let t = s.drop_last();
        lemma_enabled_of(t, k);
        if enabled_of(s).contains(k) {
            if enabled_of(t).contains(k) {
                let j = choose|j: int| 0 <= j < t.len() && (#[trigger] t[j]).metadata.id@ == k && t[j].config.enabled;
                assert(s[j] == t[j]);
            } else {
                let m = choose|m: int| 0 <= m < enabled_of(s).len() && enabled_of(s)[m] == k;
                assert(s.last().config.enabled);
                assert(m == enabled_of(s).len() - 1);
                assert(s[s.len() - 1].metadata.id@ == k);
            }
        }
        if exists|j: int| 0 <= j < s.len() && (#[trigger] s[j]).metadata.id@ == k && s[j].config.enabled {
            let j = choose|j: int| 0 <= j < s.len() && (#[trigger] s[j]).metadata.id@ == k && s[j].config.enabled;
            if j < s.len() - 1 {
                assert(t[j] == s[j]);
                let m = choose|m: int| 0 <= m < enabled_of(t).len() && enabled_of(t)[m] == k;
                assert(enabled_of(s)[m] == k);
            } else {
                assert(enabled_of(s)[enabled_of(s).len() - 1] == k);
            }
        }
    }
}

} // verus!
