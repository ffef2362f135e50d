use vstd::prelude::*;

use crate::text::{push_str, string_of};
use crate::wr_core::tweaks::{
    RegistryState, TweakError, TweakNamespace, TweakPack, TweakRegistry, TweakRegistryEntry,
    TweakValue, apply_pack_outcome, default_registry_state, namespace_index, namespace_label,
    refusal_is, registry_entries, registry_state_valid, set_changes, set_step, tweak_error_text,
};
use crate::wr_core::{CrateBoundary, CrateEntryPoint, entry_card};

verus! {

/// The entry point of the tools UI crate: a subsystem, not integration-only.
pub fn init_entrypoint() -> (r: CrateEntryPoint)
    ensures
        entry_card(r, "wr_tools_ui"@, CrateBoundary::Subsystem, false),
{
    CrateEntryPoint::new("wr_tools_ui", CrateBoundary::Subsystem, false)
}

/// One namespace's line in the tweak panel: its label, entry count and whether it changed.
#[derive(Debug, Clone, PartialEq, Eq)]
pub struct NamespaceSummary {
    pub namespace: TweakNamespace,
    pub label: &'static str,
    pub entry_count: usize,
    pub dirty: bool,
}

/// What one frame of the tweak panel did: the keys it changed and the pack it saved or
/// reloaded.
#[derive(Debug, Clone, PartialEq, Eq)]
pub struct TweakUiFrameOutput {
    pub changed_keys: Vec<String>,
    pub saved_path: Option<String>,
    pub reloaded_path: Option<String>,
}

impl TweakUiFrameOutput {
    /// Whether the frame changed a key, saved a pack or reloaded one.
    pub fn is_changed(&self) -> (r: bool)
        ensures
            r == (self.changed_keys@.len() > 0 || self.saved_path.is_some()
                || self.reloaded_path.is_some()),
    {
        self.changed_keys.len() > 0 || self.saved_path.is_some() || self.reloaded_path.is_some()
    }
}

/// The entries of a namespace in registry state `m`.
pub open spec fn namespace_entries(m: RegistryState, n: TweakNamespace) -> Seq<TweakRegistryEntry> {
    registry_entries(m).filter(|e: TweakRegistryEntry| e.namespace == n)
}

/// The status line after `key` was changed live.
pub open spec fn updated_status(key: Seq<char>) -> Seq<char> {
    "Updated `"@ + key + "` live."@
}

/// The status line after a pack was loaded from `path`.
pub open spec fn loaded_status(path: Seq<char>) -> Seq<char> {
    "Loaded tweak pack from "@ + path + "."@
}

/// The status line after a pack was saved to `path`.
pub open spec fn saved_status(path: Seq<char>) -> Seq<char> {
    "Saved tweak pack to "@ + path + "."@
}

/// The message of the error for a save or reload without a pack target.
pub open spec fn no_target_message() -> Seq<char> {
    "no tweak pack target configured"@
}

/// The status line after the dirty flags were cleared.
pub open spec fn cleared_status() -> Seq<char> {
    "Cleared namespace dirty flags."@
}

/// What happened in one frame of the tweak panel. Saving and reloading touch files, so the
/// event carries what the file operation gave: the path written or read (with the pack read),
/// or the error.
#[derive(Debug)]
pub enum TweakPanelEvent {
    /// A namespace tab was clicked.
    SelectNamespace(TweakNamespace),
    /// Save Pack was clicked: the path the registry's snapshot pack was written to, or why not.
    SavePack(Result<String, TweakError>),
    /// Reload Pack was clicked: the path and the pack read from the pack target, or why not.
    ReloadPack(Result<(String, TweakPack), TweakError>),
    /// Clear Dirty was clicked.
    ClearDirty,
    /// A tweak's value was edited.
    EditValue { key: String, value: TweakValue },
}

/// A frame output that changed, saved and reloaded nothing.
pub open spec fn is_quiet(r: TweakUiFrameOutput) -> bool {
    r.changed_keys@.len() == 0 && r.saved_path is None && r.reloaded_path is None
}

/// The state of the tweak panel: the registry it edits, the namespace it shows, the file its
/// pack is saved to and reloaded from, and the last status line.
#[derive(Debug, Clone, PartialEq)]
pub struct TweakUiShell {
    registry: TweakRegistry,
    selected_namespace: TweakNamespace,
    pack_target: Option<String>,
    status_message: Option<String>,
}

/// An optional string by its characters.
pub open spec fn optional_text(s: Option<String>) -> Option<Seq<char>> {
    match s {
        Some(t) => Some(t@),
        None => None,
    }
}

impl Default for TweakUiShell {
    /// A panel on a fresh registry.
    fn default() -> (r: Self)
        ensures
            r.registry_state() == default_registry_state(),
            r.selected() == TweakNamespace::World,
            r.target().is_none(),
            r.status().is_none(),
    {
        TweakUiShell::new(TweakRegistry::default())
    }
}

impl TweakUiShell {
    /// The state of the registry the panel edits.
    pub closed spec fn registry_state(&self) -> RegistryState {
        self.registry@
    }

    /// The namespace whose tweaks the panel shows.
    pub closed spec fn selected(&self) -> TweakNamespace {
        self.selected_namespace
    }

    /// The file the pack is saved to and reloaded from.
    pub closed spec fn target(&self) -> Option<Seq<char>> {
        optional_text(self.pack_target)
    }

    /// The last status line.
    pub closed spec fn status(&self) -> Option<Seq<char>> {
        optional_text(self.status_message)
    }

    /// A panel on `registry`, showing the world namespace, with no pack target and no status.
    pub fn new(registry: TweakRegistry) -> (r: Self)
        ensures
            r.registry_state() == registry@,
            r.selected() == TweakNamespace::World,
            r.target().is_none(),
            r.status().is_none(),
    {
        TweakUiShell {
            registry,
            selected_namespace: TweakNamespace::World,
            pack_target: None,
            status_message: None,
        }
    }

    /// A panel on `registry` whose pack lives at `pack_target`.
    pub fn with_pack_target(registry: TweakRegistry, pack_target: String) -> (r: Self)
        ensures
            r.registry_state() == registry@,
            r.selected() == TweakNamespace::World,
            r.target() == Some(pack_target@),
            r.status().is_none(),
    {
        let mut shell = TweakUiShell::new(registry);
        shell.set_pack_target(pack_target);
        shell
    }

    /// The registry the panel edits.
    pub fn registry(&self) -> (r: &TweakRegistry)
        ensures
            r@ == self.registry_state(),
    {
        &self.registry
    }

    /// The registry the panel edits, to change it in place.
    pub fn registry_mut(&mut self) -> (r: &mut TweakRegistry)
        ensures
            r@ == old(self).registry_state(),
            final(self).registry_state() == final(r)@,
            final(self).selected() == old(self).selected(),
            final(self).target() == old(self).target(),
            final(self).status() == old(self).status(),
    {
        &mut self.registry
    }

    /// The namespace the panel shows.
    pub fn selected_namespace(&self) -> (r: TweakNamespace)
        ensures
            r == self.selected(),
    {
        self.selected_namespace
    }

    /// Shows another namespace.
    pub fn set_selected_namespace(&mut self, namespace: TweakNamespace)
        ensures
            final(self).selected() == namespace,
            final(self).registry_state() == old(self).registry_state(),
            final(self).target() == old(self).target(),
            final(self).status() == old(self).status(),
    {
        self.selected_namespace = namespace;
    }

    /// The file the pack is saved to and reloaded from.
    pub fn pack_target(&self) -> (r: Option<&str>)
        ensures
            match r {
                Some(p) => self.target() == Some(p@),
                None => self.target().is_none(),
            },
    {
        match &self.pack_target {
            Some(p) => Some(p.as_str()),
            None => None,
        }
    }

    /// Saves and reloads the pack at `pack_target` from now on.
    pub fn set_pack_target(&mut self, pack_target: String)
        ensures
            final(self).target() == Some(pack_target@),
            final(self).registry_state() == old(self).registry_state(),
            final(self).selected() == old(self).selected(),
            final(self).status() == old(self).status(),
    {
        self.pack_target = Some(pack_target);
    }

    /// The last status line.
    pub fn status_message(&self) -> (r: Option<&str>)
        ensures
            match r {
                Some(m) => self.status() == Some(m@),
                None => self.status().is_none(),
            },
    {
        match &self.status_message {
            Some(m) => Some(m.as_str()),
            None => None,
        }
    }

    /// A line per namespace, in namespace order: its label, how many tweaks it has and whether
    /// it changed.
    pub fn namespace_summaries(&self) -> (r: Vec<NamespaceSummary>)
        ensures
            r@.len() == 8,
            forall|i: int|
                0 <= i < 8 ==> {
                    let n = TweakNamespace::all_spec()[i];
                    &&& (#[trigger] r@[i]).namespace == n
                    &&& r@[i].label@ == namespace_label(n)
                    &&& r@[i].entry_count == namespace_entries(self.registry_state(), n).len()
                    &&& r@[i].dirty == self.registry_state().1[namespace_index(n)]
                },
    {
        let all = TweakNamespace::all();
        let mut r: Vec<NamespaceSummary> = Vec::new();
        let mut i: usize = 0;
        while i < 8
            invariant
                i <= 8,
                all@ == TweakNamespace::all_spec(),
                r@.len() == i,
                forall|j: int|
                    0 <= j < i ==> {
                        let n = TweakNamespace::all_spec()[j];
                        &&& (#[trigger] r@[j]).namespace == n
                        &&& r@[j].label@ == namespace_label(n)
                        &&& r@[j].entry_count == namespace_entries(self.registry_state(), n).len()
                        &&& r@[j].dirty == self.registry_state().1[namespace_index(n)]
                    },
            decreases 8 - i,
        {
            let namespace = all[i];
            let entry_count = self.registry.entries_in_namespace(namespace).len();
            let dirty = self.registry.is_namespace_dirty(namespace);
            r.push(NamespaceSummary { namespace, label: namespace.label(), entry_count, dirty });
            i = i + 1;
        }
        r
    }

    /// The tweaks of the namespace the panel shows.
    pub fn visible_entries(&self) -> (r: Vec<TweakRegistryEntry>)
        ensures
            r@ == namespace_entries(self.registry_state(), self.selected()),
    {
        self.registry.entries_in_namespace(self.selected_namespace)
    }

    /// Sets a tweak from the panel, as `TweakRegistry::set_value` does; a change is reported in
    /// the status line.
    pub fn set_value(&mut self, key: &str, value: TweakValue) -> (r: Result<bool, TweakError>)
        ensures
            registry_state_valid(final(self).registry_state()),
            r.is_ok() == set_step(old(self).registry_state(), key@, value).is_some(),
            match r {
                Ok(changed) => set_step(old(self).registry_state(), key@, value) == Some(
                    final(self).registry_state(),
                ) && changed == set_changes(old(self).registry_state(), key@, value)
                    && final(self).status() == if changed {
                    Some(updated_status(key@))
                } else {
                    old(self).status()
                },
                Err(e) => final(self).registry_state() == old(self).registry_state()
                    && refusal_is(e, key@, value) && final(self).status() == old(self).status(),
            },
            final(self).selected() == old(self).selected(),
            final(self).target() == old(self).target(),
    {
        let changed = match self.registry.set_value(key, value) {
            Ok(changed) => changed,
            Err(e) => {
                return Err(e);
            },
        };
        if changed {
            let mut message = string_of("Updated `");
            push_str(&mut message, key);
            push_str(&mut message, "` live.");
            self.status_message = Some(message);
        }
        Ok(changed)
    }

    /// The file to save the pack to or reload it from; without one, the i/o error that saving
    /// or reloading gives.
    pub fn require_pack_target(&self) -> (r: Result<String, TweakError>)
        ensures
            match r {
                Ok(p) => self.target() == Some(p@),
                Err(e) => self.target().is_none() && (e matches TweakError::Io(m) && m@
                    == no_target_message()),
            },
    {
        match &self.pack_target {
            Some(p) => Ok(p.clone()),
            None => Err(TweakError::Io(string_of("no tweak pack target configured"))),
        }
    }

    /// Records that the pack was saved to `path`: it becomes the pack target, and the status
    /// line says so. Gives the path back.
    pub fn record_saved_pack(&mut self, path: String) -> (r: String)
        ensures
            r@ == path@,
            final(self).target() == Some(path@),
            final(self).status() == Some(saved_status(path@)),
            final(self).registry_state() == old(self).registry_state(),
            final(self).selected() == old(self).selected(),
    {
        let mut message = string_of("Saved tweak pack to ");
        push_str(&mut message, path.as_str());
        push_str(&mut message, ".");
        self.status_message = Some(message);
        let r = path.clone();
        self.pack_target = Some(path);
        r
    }

    /// Applies a pack that was read from `path`, as `TweakRegistry::apply_pack` does. When it
    /// applies, `path` becomes the pack target and the status line says so; a refused pack keeps
    /// the target and status.
    pub fn apply_loaded_pack(&mut self, path: String, pack: &TweakPack) -> (r: Result<
        String,
        TweakError,
    >)
        ensures
            registry_state_valid(final(self).registry_state()),
            apply_pack_outcome(
                old(self).registry_state(),
                pack.schema_version@,
                pack.entries@,
                final(self).registry_state(),
                match r {
                    Ok(_) => Ok(()),
                    Err(e) => Err(e),
                },
            ),
            match r {
                Ok(p) => p@ == path@ && final(self).target() == Some(path@) && final(self).status()
                    == Some(loaded_status(path@)),
                Err(_) => final(self).target() == old(self).target() && final(self).status()
                    == old(self).status(),
            },
            final(self).selected() == old(self).selected(),
    {
        match self.registry.apply_pack(pack) {
            Ok(()) => {},
            Err(e) => {
                return Err(e);
            },
        }
        let mut message = string_of("Loaded tweak pack from ");
        push_str(&mut message, path.as_str());
        push_str(&mut message, ".");
        self.status_message = Some(message);
        let r = path.clone();
        self.pack_target = Some(path);
        Ok(r)
    }

    /// Applies what happened in one frame of the panel, as the panel's buttons and editors do:
    /// a tab selects its namespace; a save or reload that worked records the pack target and
    /// says so, and one that failed puts the error in the status line; Clear Dirty forgets the
    /// dirty flags; an edit sets the tweak live, reporting the key when the value changed and
    /// leaving everything as it was when the registry refused it.
    pub fn apply_panel_event(&mut self, event: TweakPanelEvent) -> (r: TweakUiFrameOutput)
        ensures
            match event {
                TweakPanelEvent::SelectNamespace(n) => {
                    &&& final(self).selected() == n
                    &&& final(self).registry_state() == old(self).registry_state()
                    &&& final(self).target() == old(self).target()
                    &&& final(self).status() == old(self).status()
                    &&& is_quiet(r)
                },
                TweakPanelEvent::SavePack(Ok(path)) => {
                    &&& final(self).target() == Some(path@)
                    &&& final(self).status() == Some(saved_status(path@))
                    &&& final(self).registry_state() == old(self).registry_state()
                    &&& final(self).selected() == old(self).selected()
                    &&& r.changed_keys@.len() == 0
                    &&& (r.saved_path matches Some(p) && p@ == path@)
                    &&& r.reloaded_path is None
                },
                TweakPanelEvent::SavePack(Err(e)) | TweakPanelEvent::ReloadPack(Err(e)) => {
                    &&& final(self).status() == Some(tweak_error_text(e))
                    &&& final(self).registry_state() == old(self).registry_state()
                    &&& final(self).target() == old(self).target()
                    &&& final(self).selected() == old(self).selected()
                    &&& is_quiet(r)
                },
                TweakPanelEvent::ReloadPack(Ok((path, pack))) => {
                    &&& final(self).selected() == old(self).selected()
                    &&& r.changed_keys@.len() == 0
                    &&& r.saved_path is None
                    &&& exists|oc: Result<(), TweakError>|
                        {
                            &&& apply_pack_outcome(
                                old(self).registry_state(),
                                pack.schema_version@,
                                pack.entries@,
                                final(self).registry_state(),
                                oc,
                            )
                            &&& match oc {
                                Ok(()) => (r.reloaded_path matches Some(p) && p@ == path@)
                                    && final(self).target() == Some(path@) && final(self).status()
                                    == Some(loaded_status(path@)),
                                Err(e) => r.reloaded_path is None && final(self).target() == old(
                                    self,
                                ).target() && final(self).status() == Some(tweak_error_text(e)),
                            }
                        }
                },
                TweakPanelEvent::ClearDirty => {
                    &&& final(self).registry_state().0 == old(self).registry_state().0
                    &&& final(self).registry_state().1 == Seq::new(8, |i: int| false)
                    &&& final(self).status() == Some(cleared_status())
                    &&& final(self).target() == old(self).target()
                    &&& final(self).selected() == old(self).selected()
                    &&& is_quiet(r)
                },
                TweakPanelEvent::EditValue { key, value } => {
                    &&& final(self).target() == old(self).target()
                    &&& final(self).selected() == old(self).selected()
                    &&& r.saved_path is None
                    &&& r.reloaded_path is None
                    &&& match set_step(old(self).registry_state(), key@, value) {
                        Some(m) => {
                            &&& final(self).registry_state() == m
                            &&& if set_changes(old(self).registry_state(), key@, value) {
                                &&& r.changed_keys@.len() == 1
                                &&& r.changed_keys@[0]@ == key@
                                &&& final(self).status() == Some(updated_status(key@))
                            } else {
                                &&& r.changed_keys@.len() == 0
                                &&& final(self).status() == old(self).status()
                            }
                        },
                        None => {
                            &&& final(self).registry_state() == old(self).registry_state()
                            &&& final(self).status() == old(self).status()
                            &&& r.changed_keys@.len() == 0
                        },
                    }
                },
            },
    {
        let mut output = TweakUiFrameOutput {
            changed_keys: Vec::new(),
            saved_path: None,
            reloaded_path: None,
        };
        match event {
            TweakPanelEvent::SelectNamespace(n) => {
                self.selected_namespace = n;
            },
            TweakPanelEvent::SavePack(Ok(path)) => {
                output.saved_path = Some(self.record_saved_pack(path));
            },
            TweakPanelEvent::SavePack(Err(e)) => {
                self.status_message = Some(e.to_string());
            },
            TweakPanelEvent::ReloadPack(Ok((path, pack))) => {
                let ghost before = self.registry_state();
                match self.apply_loaded_pack(path, &pack) {
                    Ok(p) => {
                        output.reloaded_path = Some(p);
                        assert(apply_pack_outcome(
                            before,
                            pack.schema_version@,
                            pack.entries@,
                            self.registry_state(),
                            Ok(()),
                        ));
                    },
                    Err(e) => {
                        self.status_message = Some(e.to_string());
                        assert(apply_pack_outcome(
                            before,
                            pack.schema_version@,
                            pack.entries@,
                            self.registry_state(),
                            Err(e),
                        ));
                    },
                }
            },
            TweakPanelEvent::ReloadPack(Err(e)) => {
                self.status_message = Some(e.to_string());
            },
            TweakPanelEvent::ClearDirty => {
                self.registry.clear_dirty_namespaces();
                self.status_message = Some(string_of("Cleared namespace dirty flags."));
            },
            TweakPanelEvent::EditValue { key, value } => {
                match self.set_value(key.as_str(), value) {
                    Ok(true) => {
                        output.changed_keys.push(key);
                    },
                    _ => {},
                }
            },
        }
        output
    }
}

} // verus!
