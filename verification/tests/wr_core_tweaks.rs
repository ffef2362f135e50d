use wrela::wr_core::tweaks::{
    TWEAK_PACK_SCHEMA_VERSION, TweakEntries, TweakError, TweakNamespace, TweakPack,
    TweakRegistry, TweakValue, TweakValueKind, default_tweak_definitions, f32_bits_equal,
};
use wrela::wr_tools_ui::{TweakPanelEvent, TweakUiShell};

fn scalar(value: f32) -> TweakValue {
    TweakValue::Scalar(value.to_bits())
}

#[test]
fn snapshot_pack_omits_default_values() {
    let registry = TweakRegistry::default();

    assert_eq!(registry.snapshot_pack(), TweakPack::new(TweakEntries::new()));
}

#[test]
fn registry_entries_expose_live_values_and_dirty_flags() {
    let mut registry = TweakRegistry::default();
    registry
        .set_value("combat.hitstop_scale", scalar(1.25))
        .expect("known scalar tweak should update");

    let combat_entry =
        registry.entry("combat.hitstop_scale").expect("combat tweak should be discoverable");

    assert_eq!(combat_entry.label, "Hitstop Scale");
    assert_eq!(combat_entry.value, scalar(1.25));
    assert_eq!(combat_entry.default_value, scalar(1.0));
    assert!(combat_entry.namespace_dirty);
}

#[test]
fn registry_covers_all_namespaces_and_documents_every_entry() {
    let registry = TweakRegistry::default();
    let entries = registry.entries();
    let mut namespaces = entries.iter().map(|entry| entry.namespace).collect::<Vec<_>>();
    namespaces.sort();
    namespaces.dedup();

    assert_eq!(namespaces, TweakNamespace::all().to_vec());
    assert!(entries
        .iter()
        .all(|entry| !entry.label.trim().is_empty() && !entry.description.trim().is_empty()));
}

#[test]
fn applying_pack_marks_only_the_touched_namespaces_dirty() {
    let mut registry = TweakRegistry::default();
    let pack = TweakPack::new(TweakEntries::from_pairs(vec![
        ("world.wind_strength".to_owned(), scalar(0.5)),
        ("vfx.trail_opacity".to_owned(), scalar(0.9)),
    ]));

    registry.apply_pack(&pack).expect("pack should apply");

    assert_eq!(registry.dirty_namespaces(), vec![TweakNamespace::World, TweakNamespace::Vfx]);
}

#[test]
fn namespace_summaries_and_visible_entries_reflect_dirty_state() {
    let mut shell = TweakUiShell::default();
    shell.set_selected_namespace(TweakNamespace::Combat);
    shell.set_value("combat.hitstop_scale", scalar(1.3)).expect("combat tweak should update");

    let summaries = shell.namespace_summaries();
    let combat_summary = summaries
        .iter()
        .find(|summary| summary.namespace == TweakNamespace::Combat)
        .expect("combat summary should exist");

    assert!(combat_summary.dirty);
    assert_eq!(combat_summary.entry_count, 1);
    assert_eq!(shell.visible_entries().len(), 1);
    assert!(shell.visible_entries()[0].namespace_dirty);
}

#[test]
fn tweak_definitions_have_expected_defaults() {
    let definitions = default_tweak_definitions();
    assert_eq!(definitions.len(), 8);
    assert_eq!(definitions[0].key, "world.wind_strength");
    assert_eq!(definitions[0].default_value, scalar(0.35));
    assert_eq!(definitions[2].default_value, scalar(0.65));
    assert_eq!(definitions[3].default_value, scalar(0.45));
    assert_eq!(definitions[4].default_value, TweakValue::Toggle(true));
    assert_eq!(definitions[6].default_value, scalar(0.55));
    assert_eq!(definitions[7].default_value, scalar(0.75));
    for (index, namespace) in TweakNamespace::all().iter().enumerate() {
        assert_eq!(definitions[index].namespace, *namespace);
    }
}

#[test]
fn scalar_values_compare_like_f32() {
    assert!(f32_bits_equal(0.0f32.to_bits(), (-0.0f32).to_bits()));
    assert!(!f32_bits_equal(f32::NAN.to_bits(), f32::NAN.to_bits()));
    assert!(f32_bits_equal(1.5f32.to_bits(), 1.5f32.to_bits()));
    assert!(!f32_bits_equal(1.5f32.to_bits(), 1.25f32.to_bits()));
    assert_eq!(scalar(0.0), scalar(-0.0));
    assert_ne!(scalar(f32::NAN), scalar(f32::NAN));
    assert_ne!(scalar(1.0), TweakValue::Toggle(true));
    assert_eq!(TweakValue::Toggle(false), TweakValue::Toggle(false));
    assert_eq!(scalar(2.0).kind(), TweakValueKind::Scalar);
    assert_eq!(TweakValue::Toggle(false).kind(), TweakValueKind::Toggle);
}

#[test]
fn set_value_reports_changes_and_refusals() {
    let mut registry = TweakRegistry::default();
    assert_eq!(registry.set_value("lighting.sun_warmth", scalar(0.65)), Ok(false));
    assert!(!registry.is_namespace_dirty(TweakNamespace::Lighting));
    assert_eq!(registry.set_value("lighting.sun_warmth", scalar(0.82)), Ok(true));
    assert_eq!(registry.set_value("lighting.sun_warmth", scalar(0.82)), Ok(false));
    assert_eq!(registry.value("lighting.sun_warmth"), Some(scalar(0.82)));
    assert!(registry.is_namespace_dirty(TweakNamespace::Lighting));
    assert_eq!(registry.dirty_namespace_count(), 1);

    assert_eq!(
        registry.set_value("lighting.unknown", scalar(1.0)),
        Err(TweakError::UnknownKey { key: "lighting.unknown".to_owned() })
    );
    assert_eq!(
        registry.set_value("player.camera_bob_enabled", scalar(1.0)),
        Err(TweakError::TypeMismatch {
            key: "player.camera_bob_enabled".to_owned(),
            expected: TweakValueKind::Toggle,
            found: TweakValueKind::Scalar,
        })
    );
    assert_eq!(registry.value("player.camera_bob_enabled"), Some(TweakValue::Toggle(true)));
    assert_eq!(registry.value("no.such_key"), None);

    // A NaN never equals the live value, so setting it again still counts as a change.
    assert_eq!(registry.set_value("vfx.trail_opacity", scalar(f32::NAN)), Ok(true));
    assert_eq!(registry.set_value("vfx.trail_opacity", scalar(f32::NAN)), Ok(true));

    registry.clear_dirty_namespaces();
    assert!(registry.dirty_namespaces().is_empty());
    assert_eq!(registry.value("lighting.sun_warmth"), Some(scalar(0.82)));
}

#[test]
fn snapshot_then_apply_restores_values() {
    let mut registry = TweakRegistry::default();
    registry.set_value("atmosphere.mie_strength", scalar(1.2)).expect("scalar tweak");
    registry.set_value("player.camera_bob_enabled", TweakValue::Toggle(false)).expect("toggle");

    let pack = registry.snapshot_pack();
    assert_eq!(pack.schema_version, TWEAK_PACK_SCHEMA_VERSION);
    assert_eq!(pack.entries.len(), 2);
    assert_eq!(pack.entries.key_at(0), "atmosphere.mie_strength");
    assert_eq!(pack.entries.key_at(1), "player.camera_bob_enabled");
    assert_eq!(pack.entries.get("atmosphere.mie_strength"), Some(scalar(1.2)));
    assert_eq!(pack.entries.get("world.wind_strength"), None);

    let mut restored = TweakRegistry::default();
    restored.apply_pack(&pack).expect("snapshot should apply");
    for entry in registry.entries() {
        assert_eq!(restored.value(entry.key), Some(entry.value));
    }
    assert_eq!(
        restored.dirty_namespaces(),
        vec![TweakNamespace::Atmosphere, TweakNamespace::Player]
    );
}

#[test]
fn apply_pack_refuses_other_schema_and_stops_at_first_bad_entry() {
    let mut registry = TweakRegistry::default();
    let mut pack = TweakPack::new(TweakEntries::from_pairs(vec![(
        "world.wind_strength".to_owned(),
        scalar(0.5),
    )]));
    pack.schema_version = "wr_tweak_pack/v0".to_owned();
    assert_eq!(
        registry.apply_pack(&pack),
        Err(TweakError::InvalidSchemaVersion { found: "wr_tweak_pack/v0".to_owned() })
    );
    assert_eq!(registry.value("world.wind_strength"), Some(scalar(0.35)));
    assert_eq!(
        pack.validate(),
        Err(TweakError::InvalidSchemaVersion { found: "wr_tweak_pack/v0".to_owned() })
    );

    let pack = TweakPack::new(TweakEntries::from_pairs(vec![
        ("world.wind_strength".to_owned(), scalar(0.5)),
        ("combat.hitstop_scale".to_owned(), scalar(2.0)),
        ("lighting.sun_warmth".to_owned(), TweakValue::Toggle(true)),
    ]));
    // Key order: combat, lighting, world; the lighting entry is refused, so world stays.
    assert_eq!(
        registry.apply_pack(&pack),
        Err(TweakError::TypeMismatch {
            key: "lighting.sun_warmth".to_owned(),
            expected: TweakValueKind::Scalar,
            found: TweakValueKind::Toggle,
        })
    );
    assert_eq!(registry.value("combat.hitstop_scale"), Some(scalar(2.0)));
    assert_eq!(registry.value("world.wind_strength"), Some(scalar(0.35)));
}

#[test]
fn tweak_entries_keep_key_order_and_later_values_win() {
    let mut entries = TweakEntries::from_pairs(vec![
        ("b".to_owned(), scalar(1.0)),
        ("a".to_owned(), TweakValue::Toggle(true)),
        ("b".to_owned(), scalar(2.0)),
    ]);
    assert_eq!(entries.len(), 2);
    assert_eq!(entries.key_at(0), "a");
    assert_eq!(entries.value_at(1), scalar(2.0));
    assert_eq!(entries.insert("a".to_owned(), TweakValue::Toggle(false)), Some(TweakValue::Toggle(true)));
    assert_eq!(entries.insert("c".to_owned(), scalar(3.0)), None);
    assert_eq!(entries.get("a"), Some(TweakValue::Toggle(false)));
    assert_eq!(entries.clone(), entries);
    assert!(!entries.is_empty());
    assert!(TweakEntries::new().is_empty());
}

#[test]
fn shell_tracks_status_and_pack_target() {
    let mut shell = TweakUiShell::with_pack_target(TweakRegistry::default(), "packs/hero.ron".to_owned());
    assert_eq!(shell.pack_target(), Some("packs/hero.ron"));
    assert_eq!(shell.status_message(), None);
    assert_eq!(shell.selected_namespace(), TweakNamespace::World);

    assert_eq!(shell.set_value("lighting.sun_warmth", scalar(0.82)), Ok(true));
    assert_eq!(shell.status_message(), Some("Updated `lighting.sun_warmth` live."));

    let target = shell.require_pack_target().expect("target is set");
    assert_eq!(target, "packs/hero.ron");
    assert_eq!(shell.record_saved_pack(target.clone()), target);
    assert_eq!(shell.status_message(), Some("Saved tweak pack to packs/hero.ron."));

    let pack = shell.registry().snapshot_pack();
    let mut reloaded = TweakUiShell::default();
    assert_eq!(
        reloaded.require_pack_target(),
        Err(TweakError::Io("no tweak pack target configured".to_owned()))
    );
    let loaded = reloaded.apply_loaded_pack("packs/hero.ron".to_owned(), &pack).expect("pack applies");
    assert_eq!(loaded, "packs/hero.ron");
    assert_eq!(reloaded.pack_target(), Some("packs/hero.ron"));
    assert_eq!(reloaded.status_message(), Some("Loaded tweak pack from packs/hero.ron."));
    assert_eq!(reloaded.registry().value("lighting.sun_warmth"), Some(scalar(0.82)));
    assert!(reloaded.registry().is_namespace_dirty(TweakNamespace::Lighting));

    reloaded.registry_mut().clear_dirty_namespaces();
    assert!(!reloaded.registry().is_namespace_dirty(TweakNamespace::Lighting));
}

#[test]
fn panel_events_drive_the_tweak_panel() {
    let mut shell = TweakUiShell::default();

    let out = shell.apply_panel_event(TweakPanelEvent::SelectNamespace(TweakNamespace::Combat));
    assert!(!out.is_changed());
    assert_eq!(shell.selected_namespace(), TweakNamespace::Combat);

    let out = shell.apply_panel_event(TweakPanelEvent::EditValue {
        key: "combat.hitstop_scale".to_owned(),
        value: scalar(1.3),
    });
    assert_eq!(out.changed_keys, vec!["combat.hitstop_scale".to_owned()]);
    assert_eq!(shell.status_message(), Some("Updated `combat.hitstop_scale` live."));
    assert!(shell.registry().is_namespace_dirty(TweakNamespace::Combat));

    let again = shell.apply_panel_event(TweakPanelEvent::EditValue {
        key: "combat.hitstop_scale".to_owned(),
        value: scalar(1.3),
    });
    assert!(again.changed_keys.is_empty());

    let refused = shell.apply_panel_event(TweakPanelEvent::EditValue {
        key: "combat.nope".to_owned(),
        value: scalar(1.0),
    });
    assert!(!refused.is_changed());
    assert_eq!(shell.status_message(), Some("Updated `combat.hitstop_scale` live."));

    let no_target = shell.require_pack_target().map(|path| path);
    let out = shell.apply_panel_event(TweakPanelEvent::SavePack(no_target));
    assert!(!out.is_changed());
    assert_eq!(shell.status_message(), Some("i/o error: no tweak pack target configured"));

    let out = shell.apply_panel_event(TweakPanelEvent::SavePack(Ok("packs/combat.ron".to_owned())));
    assert_eq!(out.saved_path.as_deref(), Some("packs/combat.ron"));
    assert_eq!(shell.pack_target(), Some("packs/combat.ron"));
    assert_eq!(shell.status_message(), Some("Saved tweak pack to packs/combat.ron."));

    let pack = shell.registry().snapshot_pack();
    let out = shell.apply_panel_event(TweakPanelEvent::ClearDirty);
    assert!(!out.is_changed());
    assert!(!shell.registry().is_namespace_dirty(TweakNamespace::Combat));
    assert_eq!(shell.status_message(), Some("Cleared namespace dirty flags."));

    let mut other = TweakUiShell::default();
    let out = other.apply_panel_event(TweakPanelEvent::ReloadPack(Ok(("packs/combat.ron".to_owned(), pack))));
    assert_eq!(out.reloaded_path.as_deref(), Some("packs/combat.ron"));
    assert_eq!(other.registry().value("combat.hitstop_scale"), Some(scalar(1.3)));
    assert_eq!(other.status_message(), Some("Loaded tweak pack from packs/combat.ron."));

    let bad = TweakPack::new(TweakEntries::from_pairs(vec![("nope".to_owned(), TweakValue::Toggle(true))]));
    let out = other.apply_panel_event(TweakPanelEvent::ReloadPack(Ok(("packs/bad.ron".to_owned(), bad))));
    assert!(!out.is_changed());
    assert_eq!(other.pack_target(), Some("packs/combat.ron"));
    assert_eq!(other.status_message(), Some("unknown tweak key `nope`"));

    let out = other.apply_panel_event(TweakPanelEvent::ReloadPack(Err(TweakError::Io("gone".to_owned()))));
    assert!(!out.is_changed());
    assert_eq!(other.status_message(), Some("i/o error: gone"));
}
