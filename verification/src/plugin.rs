//! The plugin runtime: loading a plugin and driving it through its
//! lifecycle.
//!
//! A plugin's module lives outside this crate. Each operation that needs
//! the module takes a function that stands for the module's part, asks it
//! only where the lifecycle allows the operation, and decides from the
//! answer what becomes of the plugin. What it decides is written down once,
//! as a function from the plugin's model and the module's answer to the
//! next model and the result.
//!
//! The lifecycle, as this runtime holds it:
//!
//! - A configuration is accepted until the plugin is initialised. Later it
//!   has no effect: the call succeeds and changes nothing.
//! - Initialising an initialised plugin has no effect either. After a
//!   failed attempt the plugin may be initialised again.
//! - Collecting before the plugin is initialised fails with `NotSupported`.
//!   The module is not asked, and the plugin keeps its state and its data.
//! - A failed collection leaves the data of the last successful one
//!   untouched and leaves a diagnostic.
//! - Unloading consumes the plugin, so nothing can be asked of it after.
//!
//! An operation works on the one plugin it is called on and on nothing
//! else: whatever a plugin's module does, no other plugin and no cache is
//! changed by this runtime on its account.

use vstd::prelude::*;
use crate::error::{DracErrorCode, ErrorCode, DRAC_SUCCESS};
use crate::fields::{fields_of, FieldMap, Fields, RawPluginField};
use crate::registry::{PluginManager, PluginManagerView, PluginOrigin};
use crate::text::{contains_nul, copy_optional_text, has_nul, optional_text};
use crate::wire::outcome_view;

verus! {

/// The diagnostic that a collection leaves when it is asked of a plugin
/// that is not initialised.
pub const NOT_INITIALIZED: &'static str = "plugin is not initialized";

/// The diagnostic that a failed collection leaves when the module left
/// none of its own.
pub const COLLECTION_FAILED: &'static str = "data collection failed";

/// Where a plugin stands in its lifecycle.
///
/// A plugin is never seen as initialised but undecided: the module's answer
/// to the initialisation says at once whether the plugin is enabled, so a
/// successful initialisation leads straight to `Ready` or to `Disabled`.
#[derive(Debug, Clone, Copy, PartialEq, Eq, Structural)]
pub enum PluginState {
    /// Loaded; no configuration was accepted.
    Unconfigured,
    /// A configuration was accepted; not initialised.
    Configured,
    /// Initialised, and the plugin said that it is enabled.
    Ready,
    /// Initialised, and the plugin said that it is not enabled.
    Disabled,
    /// Data was collected, and the last initialisation or collection that
    /// ran succeeded.
    DataCollected,
    /// The last initialisation or collection that ran failed.
    Error,
}

/// What a module answers when it is initialised.
#[derive(Debug, Clone, PartialEq, Eq)]
pub struct InitReply {
    pub code: DracErrorCode,
    /// The plugin's own decision; it counts only with `DRAC_SUCCESS`.
    pub enabled: bool,
    /// A diagnostic, if the module left one.
    pub error: Option<String>,
}

/// What a module answers when it collects data.
#[derive(Debug, Clone, PartialEq, Eq)]
pub struct CollectReply {
    pub code: DracErrorCode,
    /// The collected data as serialised text; it counts only with
    /// `DRAC_SUCCESS`.
    pub json: Option<String>,
    /// The collected data as raw fields; they count only with
    /// `DRAC_SUCCESS`.
    pub fields: Vec<RawPluginField>,
    /// A diagnostic, if the module left one.
    pub error: Option<String>,
}

/// The model of a plugin.
pub struct PluginView {
    /// The module's handle.
    pub handle: usize,
    /// The configuration that was accepted last.
    pub config: Option<Seq<char>>,
    /// Whether an initialisation succeeded.
    pub initialized: bool,
    /// The plugin's own decision at its initialisation.
    pub enabled: bool,
    /// Whether the last initialisation or collection that ran failed.
    pub failed: bool,
    /// Whether a collection succeeded.
    pub collected: bool,
    /// The serialised text of the last successful collection.
    pub json: Option<Seq<char>>,
    /// The fields of the last successful collection.
    pub fields: Fields,
    /// The diagnostic that was left last.
    pub last_error: Option<Seq<char>>,
}

impl PluginView {
    /// A plugin that was just loaded.
    pub open spec fn loaded(handle: usize) -> PluginView {
        PluginView {
            handle,
            config: None,
            initialized: false,
            enabled: false,
            failed: false,
            collected: false,
            json: None,
            fields: Map::empty(),
            last_error: None,
        }
    }

    /// Where the plugin stands in its lifecycle.
    pub open spec fn state(self) -> PluginState {
        if self.failed {
            PluginState::Error
        } else if !self.initialized {
            if self.config is Some {
                PluginState::Configured
            } else {
                PluginState::Unconfigured
            }
        } else if self.collected {
            PluginState::DataCollected
        } else if self.enabled {
            PluginState::Ready
        } else {
            PluginState::Disabled
        }
    }

    /// What holds of every plugin: its handle is not the null handle, it is
    /// enabled only if it is initialised, and it holds data only if a
    /// collection succeeded, which takes an initialised plugin.
    pub open spec fn valid(self) -> bool {
        &&& self.handle != 0
        &&& self.enabled ==> self.initialized
        &&& self.collected ==> self.initialized
        &&& !self.collected ==> self.json is None && self.fields == Fields::empty()
    }

    /// Whether a configuration is handed to the module: it is if it can
    /// cross the boundary and the plugin is not initialised.
    pub open spec fn config_reaches_module(self, text: Seq<char>) -> bool {
        !has_nul(text) && !self.initialized
    }

    /// What setting a configuration does, where the module, if asked,
    /// answers `code`.
    pub open spec fn after_set_config(self, text: Seq<char>, code: DracErrorCode) -> (
        PluginView,
        Result<(), ErrorCode>,
    ) {
        if has_nul(text) {
            (self, Err(ErrorCode::InvalidArgument))
        } else if self.initialized {
            (self, Ok(()))
        } else if code == DRAC_SUCCESS {
            (PluginView { config: Some(text), ..self }, Ok(()))
        } else {
            (self, Err(ErrorCode::of_code(code as int)))
        }
    }

    /// What initialising does, where the module, if asked, answers `reply`.
    pub open spec fn after_initialize(self, reply: InitReply) -> (
        PluginView,
        Result<(), ErrorCode>,
    ) {
        if self.initialized {
            (self, Ok(()))
        } else if reply.code == DRAC_SUCCESS {
            (
                PluginView { initialized: true, enabled: reply.enabled, failed: false, ..self },
                Ok(()),
            )
        } else {
            (
                PluginView {
                    failed: true,
                    last_error: later_error(self.last_error, reply.error),
                    ..self
                },
                Err(ErrorCode::of_code(reply.code as int)),
            )
        }
    }

    /// What comes of a collection that is asked of a plugin that is not
    /// initialised: it fails, and only the diagnostic changes.
    pub open spec fn refused_collect(self) -> (PluginView, Result<(), ErrorCode>) {
        (PluginView { last_error: Some(NOT_INITIALIZED@), ..self }, Err(ErrorCode::NotSupported))
    }

    /// What collecting does, where the module, if asked, answers `reply`.
    pub open spec fn after_collect_data(self, reply: CollectReply) -> (
        PluginView,
        Result<(), ErrorCode>,
    ) {
        if !self.initialized {
            self.refused_collect()
        } else if reply.code == DRAC_SUCCESS {
            (
                PluginView {
                    failed: false,
                    collected: true,
                    json: optional_text(reply.json),
                    fields: fields_of(reply.fields@),
                    ..self
                },
                Ok(()),
            )
        } else {
            (
                PluginView { failed: true, last_error: Some(collect_error(reply.error)), ..self },
                Err(ErrorCode::of_code(reply.code as int)),
            )
        }
    }
}

/// The diagnostic of a failed collection: the one that the module left, or,
/// if it left none, `COLLECTION_FAILED`.
pub open spec fn collect_error(left: Option<String>) -> Seq<char> {
    match left {
        Some(text) => text@,
        None => COLLECTION_FAILED@,
    }
}

/// The diagnostic that stays after a failed initialisation: the one that
/// the module left, or, if it left none, the one that was there before.
pub open spec fn later_error(before: Option<Seq<char>>, left: Option<String>) -> Option<
    Seq<char>,
> {
    match left {
        Some(text) => Some(text@),
        None => before,
    }
}

/// What a loader's answer amounts to: the null handle, zero, says that it
/// found nothing; any other handle is a plugin that was just loaded.
pub open spec fn load_outcome(handle: usize) -> Result<PluginView, ErrorCode> {
    if handle == 0 {
        Err(ErrorCode::NotFound)
    } else {
        Ok(PluginView::loaded(handle))
    }
}

/// Whether a load by name asks the loader: it does if the name can cross
/// the boundary and the manager knows where to turn.
pub open spec fn load_reaches_loader(manager: PluginManagerView, name: Seq<char>) -> bool {
    !has_nul(name) && manager.origin_of(name) is Some
}

/// What a load by name gives, where the loader, if asked, answers
/// `handle`; a loader that finds nothing answers zero.
pub open spec fn load_by_name(manager: PluginManagerView, name: Seq<char>, handle: usize) -> Result<
    PluginView,
    ErrorCode,
> {
    if has_nul(name) {
        Err(ErrorCode::InvalidArgument)
    } else if manager.origin_of(name) is None {
        Err(ErrorCode::NotFound)
    } else {
        load_outcome(handle)
    }
}

/// What a load from a path gives, where the loader, if asked, answers
/// `handle`.
pub open spec fn load_from_path(path: Seq<char>, handle: usize) -> Result<PluginView, ErrorCode> {
    if has_nul(path) {
        Err(ErrorCode::InvalidArgument)
    } else {
        load_outcome(handle)
    }
}

/// A loaded plugin.
#[derive(Debug)]
pub struct Plugin {
    handle: usize,
    config: Option<String>,
    initialized: bool,
    enabled: bool,
    failed: bool,
    collected: bool,
    json: Option<String>,
    fields: FieldMap,
    last_error: Option<String>,
}

impl View for Plugin {
    type V = PluginView;

    closed spec fn view(&self) -> PluginView {
        PluginView {
            handle: self.handle,
            config: optional_text(self.config),
            initialized: self.initialized,
            enabled: self.enabled,
            failed: self.failed,
            collected: self.collected,
            json: optional_text(self.json),
            fields: self.fields@,
            last_error: optional_text(self.last_error),
        }
    }
}

impl Plugin {
    #[verifier::type_invariant]
    spec fn well_formed(&self) -> bool {
        self@.valid()
    }

    /// The plugin for the handle that a loader answered.
    pub fn from_handle(handle: usize) -> (result: Result<Plugin, ErrorCode>)
        ensures
            outcome_view(result) == load_outcome(handle),
    {
        if handle == 0 {
            Err(ErrorCode::NotFound)
        } else {
            Ok(
                Plugin {
                    handle,
                    config: None,
                    initialized: false,
                    enabled: false,
                    failed: false,
                    collected: false,
                    json: None,
                    fields: FieldMap::new(),
                    last_error: None,
                },
            )
        }
    }

    /// Loads a plugin by name. The name is looked up in the static registry
    /// first and in the search paths after, and the loader is told which of
    /// the two it is to serve. A name that holds the NUL character fails
    /// with `InvalidArgument`, and a name that the manager has nowhere to
    /// look for fails with `NotFound`, both before the loader is asked.
    pub fn new<F: FnOnce(PluginOrigin, &str) -> usize>(
        plugin_name: &str,
        manager: &PluginManager,
        load: F,
    ) -> (result: Result<Plugin, ErrorCode>)
        requires
            load_reaches_loader(manager@, plugin_name@) ==> load.requires(
                (manager@.origin_of(plugin_name@)->0, plugin_name),
            ),
        ensures
            !load_reaches_loader(manager@, plugin_name@) ==> outcome_view(result) == Err::<
                PluginView,
                ErrorCode,
            >(
                if has_nul(plugin_name@) {
                    ErrorCode::InvalidArgument
                } else {
                    ErrorCode::NotFound
                },
            ),
            load_reaches_loader(manager@, plugin_name@) ==> exists|handle: usize|
                ({
                    &&& load.ensures((manager@.origin_of(plugin_name@)->0, plugin_name), handle)
                    &&& outcome_view(result) == #[trigger] load_by_name(
                        manager@,
                        plugin_name@,
                        handle,
                    )
                }),
    {
        if contains_nul(plugin_name) {
            return Err(ErrorCode::InvalidArgument);
        }
        match manager.origin_of(plugin_name) {
            None => Err(ErrorCode::NotFound),
            Some(origin) => {
                let handle = load(origin, plugin_name);
                let result = Plugin::from_handle(handle);
                assert(outcome_view(result) == load_by_name(manager@, plugin_name@, handle));
                result
            },
        }
    }

    /// Loads a plugin from a path that the caller gives; neither the static
    /// registry nor the search paths take part. A path that holds the NUL
    /// character fails with `InvalidArgument` before the loader is asked.
    pub fn from_path<F: FnOnce(PluginOrigin, &str) -> usize>(path: &str, load: F) -> (result:
        Result<Plugin, ErrorCode>)
        requires
            !has_nul(path@) ==> load.requires((PluginOrigin::File, path)),
        ensures
            has_nul(path@) ==> outcome_view(result) == Err::<PluginView, ErrorCode>(
                ErrorCode::InvalidArgument,
            ),
            !has_nul(path@) ==> exists|handle: usize|
                ({
                    &&& load.ensures((PluginOrigin::File, path), handle)
                    &&& outcome_view(result) == #[trigger] load_from_path(path@, handle)
                }),
    {
        if contains_nul(path) {
            return Err(ErrorCode::InvalidArgument);
        }
        let handle = load(PluginOrigin::File, path);
        let result = Plugin::from_handle(handle);
        assert(outcome_view(result) == load_from_path(path@, handle));
        result
    }

    /// Takes the module's verdict on a configuration that reaches it.
    fn accept_config(&mut self, toml_config: &str, code: DracErrorCode) -> (result: Result<
        (),
        ErrorCode,
    >)
        requires
            old(self)@.config_reaches_module(toml_config@),
        ensures
            (final(self)@, result) == old(self)@.after_set_config(toml_config@, code),
    {
        proof {
            use_type_invariant(&*self);
        }
        if code == DRAC_SUCCESS {
            self.config = Some(toml_config.to_owned());
            Ok(())
        } else {
            Err(ErrorCode::from_code(code))
        }
    }

    /// What setting a configuration does once the module has answered
    /// `code`, for a caller that asks the module itself.
    pub fn apply_config(&mut self, toml_config: &str, code: DracErrorCode) -> (result: Result<
        (),
        ErrorCode,
    >)
        ensures
            (final(self)@, result) == old(self)@.after_set_config(toml_config@, code),
    {
        if contains_nul(toml_config) {
            Err(ErrorCode::InvalidArgument)
        } else if self.initialized {
            Ok(())
        } else {
            self.accept_config(toml_config, code)
        }
    }

    /// Hands the plugin its configuration, a text that the module parses.
    /// It takes effect only before the plugin is initialised. The module's
    /// verdict on the text is passed on as it is.
    pub fn set_config<F: FnOnce(&str) -> DracErrorCode>(
        &mut self,
        toml_config: &str,
        apply: F,
    ) -> (result: Result<(), ErrorCode>)
        requires
            old(self)@.config_reaches_module(toml_config@) ==> apply.requires((toml_config,)),
        ensures
            !old(self)@.config_reaches_module(toml_config@) ==> final(self)@ == old(self)@,
            !old(self)@.config_reaches_module(toml_config@) ==> result == (if has_nul(
                toml_config@,
            ) {
                Err::<(), ErrorCode>(ErrorCode::InvalidArgument)
            } else {
                Ok::<(), ErrorCode>(())
            }),
            old(self)@.config_reaches_module(toml_config@) ==> exists|code: DracErrorCode|
                ({
                    &&& apply.ensures((toml_config,), code)
                    &&& (final(self)@, result) == #[trigger] old(self)@.after_set_config(
                        toml_config@,
                        code,
                    )
                }),
    {
        if contains_nul(toml_config) {
            Err(ErrorCode::InvalidArgument)
        } else if self.initialized {
            Ok(())
        } else {
            let code = apply(toml_config);
            self.accept_config(toml_config, code)
        }
    }

    /// What initialising does once the module has answered `reply`, for a
    /// caller that asks the module itself.
    pub fn apply_initialize(&mut self, reply: InitReply) -> (result: Result<(), ErrorCode>)
        ensures
            (final(self)@, result) == old(self)@.after_initialize(reply),
    {
        proof {
            use_type_invariant(&*self);
        }
        if self.initialized {
            Ok(())
        } else if reply.code == DRAC_SUCCESS {
            self.initialized = true;
            self.enabled = reply.enabled;
            self.failed = false;
            Ok(())
        } else {
            self.failed = true;
            match reply.error {
                Some(text) => {
                    self.last_error = Some(text);
                },
                None => {},
            }
            Err(ErrorCode::from_code(reply.code))
        }
    }

    /// Initialises the plugin: the module validates its configuration and
    /// decides whether the plugin is enabled.
    pub fn initialize<F: FnOnce() -> InitReply>(&mut self, run: F) -> (result: Result<
        (),
        ErrorCode,
    >)
        requires
            !old(self)@.initialized ==> run.requires(()),
        ensures
            old(self)@.initialized ==> final(self)@ == old(self)@ && result == Ok::<
                (),
                ErrorCode,
            >(()),
            !old(self)@.initialized ==> exists|reply: InitReply|
                ({
                    &&& run.ensures((), reply)
                    &&& (final(self)@, result) == #[trigger] old(self)@.after_initialize(reply)
                }),
    {
        if self.initialized {
            Ok(())
        } else {
            let reply = run();
            self.apply_initialize(reply)
        }
    }

    /// Whether the plugin is initialised and said then that it is enabled.
    pub fn is_enabled(&self) -> (enabled: bool)
        ensures
            enabled == (self@.initialized && self@.enabled),
    {
        self.initialized && self.enabled
    }

    /// Whether a collection is expected to succeed now. Before the plugin
    /// is initialised it is not, and the module is not asked; after, the
    /// module's answer is passed on.
    pub fn is_ready<F: FnOnce() -> bool>(&self, probe: F) -> (ready: bool)
        requires
            self@.initialized ==> probe.requires(()),
        ensures
            !self@.initialized ==> !ready,
            self@.initialized ==> probe.ensures((), ready),
    {
        if self.initialized {
            probe()
        } else {
            false
        }
    }

    /// Refuses a collection that is asked of a plugin that is not
    /// initialised.
    fn refuse_collect(&mut self) -> (result: Result<(), ErrorCode>)
        ensures
            (final(self)@, result) == old(self)@.refused_collect(),
    {
        proof {
            use_type_invariant(&*self);
        }
        self.last_error = Some(NOT_INITIALIZED.to_owned());
        Err(ErrorCode::NotSupported)
    }

    /// What collecting does once the module has answered `reply`, for a
    /// caller that asks the module itself.
    pub fn apply_collect(&mut self, reply: CollectReply) -> (result: Result<(), ErrorCode>)
        ensures
            (final(self)@, result) == old(self)@.after_collect_data(reply),
    {
        proof {
            use_type_invariant(&*self);
        }
        if !self.initialized {
            self.refuse_collect()
        } else if reply.code == DRAC_SUCCESS {
            self.failed = false;
            self.collected = true;
            self.fields = FieldMap::from_raw(&reply.fields);
            self.json = reply.json;
            Ok(())
        } else {
            self.failed = true;
            self.last_error = Some(
                match reply.error {
                    Some(text) => text,
                    None => COLLECTION_FAILED.to_owned(),
                },
            );
            Err(ErrorCode::from_code(reply.code))
        }
    }

    /// Collects data: the module gathers it, and what it gathered replaces
    /// what the plugin held.
    pub fn collect_data<F: FnOnce() -> CollectReply>(&mut self, run: F) -> (result: Result<
        (),
        ErrorCode,
    >)
        requires
            old(self)@.initialized ==> run.requires(()),
        ensures
            !old(self)@.initialized ==> (final(self)@, result) == old(self)@.refused_collect(),
            old(self)@.initialized ==> exists|reply: CollectReply|
                ({
                    &&& run.ensures((), reply)
                    &&& (final(self)@, result) == #[trigger] old(self)@.after_collect_data(reply)
                }),
    {
        if !self.initialized {
            self.refuse_collect()
        } else {
            let reply = run();
            self.apply_collect(reply)
        }
    }

    /// The serialised text of the last successful collection, or
    /// `NotFound` where there is none.
    pub fn get_json(&self) -> (result: Result<String, ErrorCode>)
        ensures
            outcome_view(result) == match self@.json {
                Some(text) => Ok::<Seq<char>, ErrorCode>(text),
                None => Err::<Seq<char>, ErrorCode>(ErrorCode::NotFound),
            },
    {
        match &self.json {
            Some(text) => Ok(text.clone()),
            None => Err(ErrorCode::NotFound),
        }
    }

    /// The fields of the last successful collection; none where nothing was
    /// collected. This never fails.
    pub fn get_fields(&self) -> (result: Result<FieldMap, ErrorCode>)
        ensures
            outcome_view(result) == Ok::<Fields, ErrorCode>(self@.fields),
    {
        Ok(self.fields.duplicate())
    }

    /// The diagnostic that was left last, if any was ever left. A later
    /// success does not clear it; a later diagnostic takes its place.
    pub fn get_last_error(&self) -> (error: Option<String>)
        ensures
            optional_text(error) == self@.last_error,
    {
        copy_optional_text(&self.last_error)
    }

    /// Where the plugin stands in its lifecycle.
    pub fn state(&self) -> (state: PluginState)
        ensures
            state == self@.state(),
            self@.valid(),
    {
        proof {
            use_type_invariant(self);
        }
        if self.failed {
            PluginState::Error
        } else if !self.initialized {
            if self.config.is_some() {
                PluginState::Configured
            } else {
                PluginState::Unconfigured
            }
        } else if self.collected {
            PluginState::DataCollected
        } else if self.enabled {
            PluginState::Ready
        } else {
            PluginState::Disabled
        }
    }

    /// The module's handle, which is never the null handle.
    pub fn handle(&self) -> (handle: usize)
        ensures
            handle == self@.handle,
            handle != 0,
    {
        proof {
            use_type_invariant(self);
        }
        self.handle
    }

    /// Ends the plugin's life, from whatever state, and gives back the
    /// handle of the module that is to be released with it.
    pub fn unload(self) -> (handle: usize)
        ensures
            handle == self@.handle,
            handle != 0,
    {
        proof {
            use_type_invariant(&self);
        }
        self.handle
    }
}

/// A name that is in neither the static registry nor any search path is
/// not found: either the manager has nowhere to look, or the loader looked
/// and found nothing.
pub proof fn lemma_absent_plugin_is_not_found(
    manager: PluginManagerView,
    name: Seq<char>,
    handle: usize,
)
    requires
        !has_nul(name),
        manager.origin_of(name) is None || handle == 0,
    ensures
        load_by_name(manager, name, handle) == Err::<PluginView, ErrorCode>(ErrorCode::NotFound),
{
}

/// A name or a path that holds the NUL character fails with
/// `InvalidArgument`, and no loader is asked.
pub proof fn lemma_nul_fails_before_loading(
    manager: PluginManagerView,
    name: Seq<char>,
    handle: usize,
)
    requires
        has_nul(name),
    ensures
        !load_reaches_loader(manager, name),
        load_by_name(manager, name, handle) == Err::<PluginView, ErrorCode>(
            ErrorCode::InvalidArgument,
        ),
        load_from_path(name, handle) == Err::<PluginView, ErrorCode>(ErrorCode::InvalidArgument),
{
}

/// Collecting before initialising fails with `NotSupported` whatever the
/// module would have answered, and leaves the plugin as it was but for the
/// diagnostic.
pub proof fn lemma_collect_needs_initialize(plugin: PluginView, reply: CollectReply)
    requires
        !plugin.initialized,
    ensures
        plugin.after_collect_data(reply) == (
            PluginView { last_error: Some(NOT_INITIALIZED@), ..plugin },
            Err::<(), ErrorCode>(ErrorCode::NotSupported),
        ),
        plugin.after_collect_data(reply) == plugin.refused_collect(),
        plugin.after_collect_data(reply).0.state() == plugin.state(),
{
}

/// A collection that fails leaves the collected data untouched, leaves a
/// diagnostic, puts the plugin in the `Error` state, and passes the
/// module's failure on as the kind it is, which is never `Success`.
pub proof fn lemma_failed_collect_keeps_data(plugin: PluginView, reply: CollectReply)
    requires
        plugin.initialized,
        reply.code != DRAC_SUCCESS,
    ensures
        plugin.after_collect_data(reply).0.json == plugin.json,
        plugin.after_collect_data(reply).0.fields == plugin.fields,
        plugin.after_collect_data(reply).0.collected == plugin.collected,
        plugin.after_collect_data(reply).0.last_error is Some,
        plugin.after_collect_data(reply).0.state() == PluginState::Error,
        plugin.after_collect_data(reply).1 == Err::<(), ErrorCode>(
            ErrorCode::of_code(reply.code as int),
        ),
        ErrorCode::of_code(reply.code as int) != ErrorCode::Success,
{
}

/// No operation of the runtime fails with `Success`: a failure is one of
/// the failure kinds, whatever code the loader or the module answered.
pub proof fn lemma_failures_are_never_success(
    plugin: PluginView,
    manager: PluginManagerView,
    text: Seq<char>,
    handle: usize,
    code: DracErrorCode,
    init: InitReply,
    collect: CollectReply,
)
    ensures
        load_by_name(manager, text, handle) != Err::<PluginView, ErrorCode>(ErrorCode::Success),
        load_from_path(text, handle) != Err::<PluginView, ErrorCode>(ErrorCode::Success),
        plugin.after_set_config(text, code).1 != Err::<(), ErrorCode>(ErrorCode::Success),
        plugin.after_initialize(init).1 != Err::<(), ErrorCode>(ErrorCode::Success),
        plugin.after_collect_data(collect).1 != Err::<(), ErrorCode>(ErrorCode::Success),
{
}

/// Once a plugin is initialised, a configuration has no effect on it.
pub proof fn lemma_late_config_has_no_effect(
    plugin: PluginView,
    text: Seq<char>,
    code: DracErrorCode,
)
    requires
        plugin.initialized,
    ensures
        plugin.after_set_config(text, code).0 == plugin,
{
}

/// A plugin that was loaded is valid, and every operation keeps it so.
pub proof fn lemma_lifecycle_keeps_valid(
    plugin: PluginView,
    text: Seq<char>,
    code: DracErrorCode,
    init: InitReply,
    collect: CollectReply,
)
    requires
        plugin.valid(),
    ensures
        plugin.after_set_config(text, code).0.valid(),
        plugin.after_initialize(init).0.valid(),
        plugin.after_collect_data(collect).0.valid(),
        forall|handle: usize| handle != 0 ==> (#[trigger] PluginView::loaded(handle)).valid(),
{
}

} // verus!
