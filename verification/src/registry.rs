//! What is known about plugins before any is loaded: the registry of
//! statically linked plugins and the list of search paths.
//!
//! Both are state that a whole process shares. Here they are one explicit
//! value, a `PluginManager`, that offers appending and asking and nothing
//! else. Discovery lists descriptors and loads nothing.

use vstd::prelude::*;
use crate::error::ErrorCode;
use crate::metrics::views;
use crate::text::{contains_nul, copy_text_or_empty, has_nul, text_or_empty};

verus! {

/// A plugin's descriptor as it crosses the boundary; each text may be
/// absent.
#[derive(Debug, Clone, PartialEq, Eq)]
pub struct RawPluginInfo {
    pub name: Option<String>,
    pub version: Option<String>,
    pub author: Option<String>,
    pub description: Option<String>,
}

/// What a plugin says of itself, whether or not it is loaded.
#[derive(Debug, Clone, PartialEq, Eq)]
pub struct PluginInfo {
    pub name: String,
    pub version: String,
    pub author: String,
    pub description: String,
}

/// The view of a `PluginInfo`.
pub struct PluginInfoView {
    pub name: Seq<char>,
    pub version: Seq<char>,
    pub author: Seq<char>,
    pub description: Seq<char>,
}

impl View for PluginInfo {
    type V = PluginInfoView;

    open spec fn view(&self) -> PluginInfoView {
        PluginInfoView {
            name: self.name@,
            version: self.version@,
            author: self.author@,
            description: self.description@,
        }
    }
}

impl PluginInfo {
    /// A copy with the same view.
    pub fn duplicate(&self) -> (copy: PluginInfo)
        ensures
            copy@ == self@,
    {
        PluginInfo {
            name: self.name.clone(),
            version: self.version.clone(),
            author: self.author.clone(),
            description: self.description.clone(),
        }
    }
}

/// Where a plugin's module is to come from.
#[derive(Debug, Clone, Copy, PartialEq, Eq, Structural)]
pub enum PluginOrigin {
    /// A module linked into the program and registered by name.
    Static,
    /// A library to be looked up by name in the search paths.
    SearchPath,
    /// A library at a path that the caller gave.
    File,
}

/// The descriptor that a raw record stands for: an absent text reads as the
/// empty text.
pub open spec fn plugin_info_of(raw: RawPluginInfo) -> PluginInfoView {
    PluginInfoView {
        name: text_or_empty(raw.name),
        version: text_or_empty(raw.version),
        author: text_or_empty(raw.author),
        description: text_or_empty(raw.description),
    }
}

/// The descriptors that a raw list stands for: one per record, in order.
pub open spec fn plugin_infos_of(raw: Seq<RawPluginInfo>) -> Seq<PluginInfoView> {
    raw.map_values(|record: RawPluginInfo| plugin_info_of(record))
}

/// Whether a plugin of this name is among the descriptors.
pub open spec fn has_name(registry: Seq<PluginInfoView>, name: Seq<char>) -> bool {
    exists|i: int| 0 <= i < registry.len() && (#[trigger] registry[i]).name == name
}

/// No two descriptors have the same name.
pub open spec fn distinct_names(registry: Seq<PluginInfoView>) -> bool {
    forall|i: int, j: int|
        0 <= i < j < registry.len() ==> (#[trigger] registry[i]).name != (
        #[trigger] registry[j]).name
}

/// The registry after the incoming descriptors were registered in order: a
/// descriptor whose name the registry holds by then is left out.
pub open spec fn registered(
    registry: Seq<PluginInfoView>,
    incoming: Seq<PluginInfoView>,
) -> Seq<PluginInfoView>
    decreases incoming.len(),
{
    if incoming.len() == 0 {
        registry
    } else {
        let earlier = registered(registry, incoming.drop_last());
        if has_name(earlier, incoming.last().name) {
            earlier
        } else {
            earlier.push(incoming.last())
        }
    }
}

/// The model of a `PluginManager`.
pub struct PluginManagerView {
    /// The statically linked plugins that are registered, in the order of
    /// their registration.
    pub static_plugins: Seq<PluginInfoView>,
    /// The search paths, in the order in which they were added.
    pub search_paths: Seq<Seq<char>>,
}

impl PluginManagerView {
    /// No static plugin is registered and no search path is known.
    pub open spec fn empty() -> PluginManagerView {
        PluginManagerView { static_plugins: Seq::empty(), search_paths: Seq::empty() }
    }

    /// Where a load by name turns to: to the static registry if it holds
    /// the name, else to the search paths if there are any, else nowhere.
    pub open spec fn origin_of(self, name: Seq<char>) -> Option<PluginOrigin> {
        if has_name(self.static_plugins, name) {
            Some(PluginOrigin::Static)
        } else if self.search_paths.len() > 0 {
            Some(PluginOrigin::SearchPath)
        } else {
            None
        }
    }

    /// What discovery lists when a scan of the search paths finds `found`:
    /// the registered static plugins, then one descriptor for each record
    /// that was found, in order and whatever its name. Without search paths
    /// nothing is scanned and nothing is found.
    pub open spec fn discovered(self, found: Seq<RawPluginInfo>) -> Seq<PluginInfoView> {
        if self.search_paths.len() == 0 {
            self.static_plugins
        } else {
            self.static_plugins + plugin_infos_of(found)
        }
    }
}

/// The static registry and the search paths.
#[derive(Debug)]
pub struct PluginManager {
    static_plugins: Vec<PluginInfo>,
    search_paths: Vec<String>,
}

impl View for PluginManager {
    type V = PluginManagerView;

    closed spec fn view(&self) -> PluginManagerView {
        PluginManagerView {
            static_plugins: views(self.static_plugins@),
            search_paths: self.search_paths@.map_values(|path: String| path@),
        }
    }
}

/// Decodes a raw plugin descriptor.
pub fn decode_plugin_info(raw: &RawPluginInfo) -> (info: PluginInfo)
    ensures
        info@ == plugin_info_of(*raw),
{
    PluginInfo {
        name: copy_text_or_empty(&raw.name),
        version: copy_text_or_empty(&raw.version),
        author: copy_text_or_empty(&raw.author),
        description: copy_text_or_empty(&raw.description),
    }
}

/// Decodes a raw list of plugin descriptors. Every record decodes, so the
/// list that comes out is as long as the one that went in.
pub fn decode_plugin_infos(raw: &Vec<RawPluginInfo>) -> (infos: Vec<PluginInfo>)
    ensures
        infos.len() == raw.len(),
        views(infos@) == plugin_infos_of(raw@),
{
    let mut infos: Vec<PluginInfo> = Vec::new();
    let mut i: usize = 0;
    while i < raw.len()
        invariant
            i <= raw.len(),
            infos.len() == i,
            forall|j: int| 0 <= j < i ==> (#[trigger] infos[j])@ == plugin_info_of(raw[j]),
        decreases raw.len() - i,
    {
        infos.push(decode_plugin_info(&raw[i]));
        i += 1;
    }
    assert(views(infos@) =~= plugin_infos_of(raw@));
    infos
}

/// Whether a descriptor of this name is in the list.
fn holds_name(list: &Vec<PluginInfo>, name: &String) -> (held: bool)
    ensures
        held == has_name(views(list@), name@),
{
    let mut i: usize = 0;
    while i < list.len()
        invariant
            i <= list.len(),
            forall|j: int| 0 <= j < i ==> (#[trigger] views(list@)[j]).name != name@,
        decreases list.len() - i,
    {
        if list[i].name == *name {
            assert(views(list@)[i as int].name == name@);
            return true;
        }
        i += 1;
    }
    false
}

/// Appends each incoming descriptor, decoded, whose name the list does not
/// hold by then.
fn register_all(list: &mut Vec<PluginInfo>, incoming: &Vec<RawPluginInfo>)
    ensures
        views(final(list)@) == registered(views(old(list)@), plugin_infos_of(incoming@)),
{
    let ghost decoded = plugin_infos_of(incoming@);
    let mut i: usize = 0;
    while i < incoming.len()
        invariant
            i <= incoming.len(),
            decoded == plugin_infos_of(incoming@),
            views(list@) == registered(views(old(list)@), decoded.take(i as int)),
        decreases incoming.len() - i,
    {
        let info = decode_plugin_info(&incoming[i]);
        proof {
            assert(decoded.take(i + 1).drop_last() =~= decoded.take(i as int));
            assert(decoded.take(i + 1).last() == info@);
        }
        if !holds_name(list, &info.name) {
            let ghost before = list@;
            list.push(info);
            assert(views(list@) =~= views(before).push(info@));
        }
        i += 1;
    }
    proof {
        assert(decoded.take(incoming.len() as int) =~= decoded);
    }
}

impl PluginManager {
    /// A manager that knows no static plugin and no search path.
    pub fn new() -> (manager: PluginManager)
        ensures
            manager@ == PluginManagerView::empty(),
    {
        let manager = PluginManager { static_plugins: Vec::new(), search_paths: Vec::new() };
        assert(manager@.static_plugins =~= Seq::empty());
        assert(manager@.search_paths =~= Seq::empty());
        manager
    }

    /// Whether a static plugin of this name is registered.
    pub fn is_registered(&self, name: &str) -> (held: bool)
        ensures
            held == has_name(self@.static_plugins, name@),
    {
        holds_name(&self.static_plugins, &name.to_owned())
    }

    /// Where a load by name turns to.
    pub fn origin_of(&self, name: &str) -> (origin: Option<PluginOrigin>)
        ensures
            origin == self@.origin_of(name@),
    {
        if self.is_registered(name) {
            Some(PluginOrigin::Static)
        } else if self.search_paths.len() > 0 {
            Some(PluginOrigin::SearchPath)
        } else {
            None
        }
    }

    /// The number of search paths.
    pub fn search_path_count(&self) -> (count: usize)
        ensures
            count == self@.search_paths.len(),
    {
        self.search_paths.len()
    }

    /// The registered static plugins, then one descriptor for each record
    /// of `found`, in order.
    pub fn listing(&self, found: &Vec<RawPluginInfo>) -> (list: Vec<PluginInfo>)
        ensures
            list.len() == self@.static_plugins.len() + found.len(),
            views(list@) == self@.static_plugins + plugin_infos_of(found@),
    {
        let mut list: Vec<PluginInfo> = Vec::new();
        let mut i: usize = 0;
        while i < self.static_plugins.len()
            invariant
                i <= self.static_plugins.len(),
                list.len() == i,
                forall|j: int| 0 <= j < i ==> (#[trigger] list[j])@ == self.static_plugins[j]@,
            decreases self.static_plugins.len() - i,
        {
            list.push(self.static_plugins[i].duplicate());
            i += 1;
        }
        let mut k: usize = 0;
        while k < found.len()
            invariant
                k <= found.len(),
                list.len() == self.static_plugins.len() + k,
                forall|j: int|
                    0 <= j < self.static_plugins.len() ==> (#[trigger] list[j])@
                        == self.static_plugins[j]@,
                forall|j: int|
                    0 <= j < k ==> (#[trigger] list[self.static_plugins.len() + j])@
                        == plugin_info_of(found[j]),
            decreases found.len() - k,
        {
            list.push(decode_plugin_info(&found[k]));
            k += 1;
        }
        proof {
            let count = self.static_plugins.len() as int;
            let expected = self@.static_plugins + plugin_infos_of(found@);
            assert(views(list@).len() == expected.len());
            assert forall|j: int| 0 <= j < expected.len() implies views(list@)[j]
                == expected[j] by {
                if j >= count {
                    assert(list[count + (j - count)]@ == plugin_info_of(found[j - count]));
                }
            }
            assert(views(list@) =~= expected);
        }
        list
    }
}

impl Default for PluginManager {
    fn default() -> (manager: PluginManager)
        ensures
            manager@ == PluginManagerView::empty(),
    {
        PluginManager::new()
    }
}

/// Registers the statically linked plugins and says how many are registered
/// then. A plugin whose name is registered already is not registered again,
/// so the call may be repeated; with nothing linked in it changes nothing.
pub fn init_static_plugins(manager: &mut PluginManager, linked: &Vec<RawPluginInfo>) -> (count:
    usize)
    ensures
        final(manager)@.static_plugins == registered(
            old(manager)@.static_plugins,
            plugin_infos_of(linked@),
        ),
        final(manager)@.search_paths == old(manager)@.search_paths,
        count == final(manager)@.static_plugins.len(),
{
    register_all(&mut manager.static_plugins, linked);
    manager.static_plugins.len()
}

/// Adds a search path, to be consulted by later discoveries and loads. A
/// path that holds the NUL character cannot be handed across the boundary
/// and is left out without a word.
pub fn add_plugin_search_path(manager: &mut PluginManager, path: &str)
    ensures
        final(manager)@.static_plugins == old(manager)@.static_plugins,
        final(manager)@.search_paths == if has_nul(path@) {
            old(manager)@.search_paths
        } else {
            old(manager)@.search_paths.push(path@)
        },
{
    if !contains_nul(path) {
        let ghost before = manager.search_paths@;
        manager.search_paths.push(path.to_owned());
        assert(manager@.search_paths =~= before.map_values(|p: String| p@).push(path@));
    }
}

/// Lists the plugins that are known, loaded or not: the registered static
/// plugins, then one descriptor for each library that a scan of the search
/// paths finds, in the order of the scan. No record is left out, whatever
/// its name, and nothing is loaded. The scan is made only if there is a
/// search path; discovery itself never fails.
pub fn discover_plugins<F: FnOnce() -> Vec<RawPluginInfo>>(
    manager: &PluginManager,
    scan: F,
) -> (result: Result<Vec<PluginInfo>, ErrorCode>)
    requires
        manager@.search_paths.len() > 0 ==> scan.requires(()),
    ensures
        result is Ok,
        manager@.search_paths.len() == 0 ==> views(result->Ok_0@) == manager@.static_plugins,
        manager@.search_paths.len() > 0 ==> exists|found: Vec<RawPluginInfo>|
            #[trigger] scan.ensures((), found) && views(result->Ok_0@) == manager@.discovered(
                found@,
            ) && result->Ok_0.len() == manager@.static_plugins.len() + found.len(),
{
    if manager.search_paths.len() == 0 {
        let found: Vec<RawPluginInfo> = Vec::new();
        let list = manager.listing(&found);
        assert(manager@.static_plugins + plugin_infos_of(found@) =~= manager@.static_plugins);
        Ok(list)
    } else {
        let found = scan();
        Ok(manager.listing(&found))
    }
}

/// After registration the registry holds the name of every incoming
/// descriptor.
proof fn lemma_registered_holds_incoming(
    registry: Seq<PluginInfoView>,
    incoming: Seq<PluginInfoView>,
    i: int,
)
    requires
        0 <= i < incoming.len(),
    ensures
        has_name(registered(registry, incoming), incoming[i].name),
    decreases incoming.len(),
{
    let earlier = registered(registry, incoming.drop_last());
    if i < incoming.len() - 1 {
        lemma_registered_holds_incoming(registry, incoming.drop_last(), i);
        assert(incoming.drop_last()[i] == incoming[i]);
        let k = choose|k: int|
            0 <= k < earlier.len() && (#[trigger] earlier[k]).name == incoming[i].name;
        if !has_name(earlier, incoming.last().name) {
            assert(earlier.push(incoming.last())[k].name == incoming[i].name);
        }
    } else {
        if !has_name(earlier, incoming.last().name) {
            assert(earlier.push(incoming.last())[earlier.len() as int].name == incoming[i].name);
        }
    }
}

/// Registering descriptors whose names are all held changes nothing.
proof fn lemma_registered_known_names(registry: Seq<PluginInfoView>, incoming: Seq<PluginInfoView>)
    requires
        forall|i: int|
            0 <= i < incoming.len() ==> has_name(registry, (#[trigger] incoming[i]).name),
    ensures
        registered(registry, incoming) == registry,
    decreases incoming.len(),
{
    if incoming.len() > 0 {
        assert forall|i: int| 0 <= i < incoming.drop_last().len() implies has_name(
            registry,
            (#[trigger] incoming.drop_last()[i]).name,
        ) by {
            assert(has_name(registry, incoming[i].name));
        }
        lemma_registered_known_names(registry, incoming.drop_last());
        assert(has_name(registry, incoming[incoming.len() - 1].name));
    }
}

/// Registration never gives one name to two entries: a registry whose
/// names are pairwise different stays so.
pub proof fn lemma_registered_names_stay_distinct(
    registry: Seq<PluginInfoView>,
    incoming: Seq<PluginInfoView>,
)
    requires
        distinct_names(registry),
    ensures
        distinct_names(registered(registry, incoming)),
    decreases incoming.len(),
{
    if incoming.len() > 0 {
        let earlier = registered(registry, incoming.drop_last());
        lemma_registered_names_stay_distinct(registry, incoming.drop_last());
        if !has_name(earlier, incoming.last().name) {
            let longer = earlier.push(incoming.last());
            assert forall|i: int, j: int| 0 <= i < j < longer.len() implies (
            #[trigger] longer[i]).name != (#[trigger] longer[j]).name by {
                if j < earlier.len() {
                    assert(earlier[i].name != earlier[j].name);
                } else {
                    assert(earlier[i].name != incoming.last().name);
                }
            }
        }
    }
}

/// Initialising the static plugins a second time changes nothing: the
/// registry, and with it the count, is what the first call left.
pub proof fn lemma_init_static_plugins_idempotent(
    registry: Seq<PluginInfoView>,
    linked: Seq<PluginInfoView>,
)
    ensures
        registered(registered(registry, linked), linked) == registered(registry, linked),
{
    let once = registered(registry, linked);
    assert forall|i: int| 0 <= i < linked.len() implies has_name(
        once,
        (#[trigger] linked[i]).name,
    ) by {
        lemma_registered_holds_incoming(registry, linked, i);
    }
    lemma_registered_known_names(once, linked);
}

/// With no static plugin linked in, initialisation registers nothing: on a
/// registry that is still empty the count is zero.
pub proof fn lemma_nothing_linked_registers_nothing(registry: Seq<PluginInfoView>)
    ensures
        registered(registry, Seq::empty()) == registry,
        registered(Seq::empty(), Seq::empty()).len() == 0,
{
}

/// Discovery lists one descriptor for each registered static plugin and
/// one for each record that the scan found, in that order: the record at
/// place `i` is listed at place `i` after the static plugins, decoded, and
/// none is dropped.
pub proof fn lemma_discovery_lists_every_record(
    manager: PluginManagerView,
    found: Seq<RawPluginInfo>,
    i: int,
)
    requires
        manager.search_paths.len() > 0,
        0 <= i < found.len(),
    ensures
        manager.discovered(found).len() == manager.static_plugins.len() + found.len(),
        manager.discovered(found)[manager.static_plugins.len() + i] == plugin_info_of(found[i]),
{
}

/// With no search path and no static plugin, discovery lists nothing,
/// whatever a scan would find.
pub proof fn lemma_nothing_configured_discovers_nothing(
    manager: PluginManagerView,
    found: Seq<RawPluginInfo>,
)
    requires
        manager.static_plugins.len() == 0,
        manager.search_paths.len() == 0,
    ensures
        manager.discovered(found).len() == 0,
{
}

} // verus!
