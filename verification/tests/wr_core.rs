use wrela::string_map::StringMap;
use wrela::wr_core::config_packs::{SEED_CONFIG_PACK_SCHEMA_VERSION, SeedConfigPack, SeedConfigPackError};
use wrela::wr_core::telemetry::{
    ENV_ENABLE_METRICS, ProfilerBackend, TelemetryConfig, TelemetryConfigError, parse_bool_env,
};
use wrela::wr_core::tweaks::{TweakError, TweakNamespace, TweakValueKind};

#[test]
fn core_seed_config_packs_validate_name_and_overrides() {
    let pack = SeedConfigPack::named("default").expect("named pack");
    assert_eq!(pack.schema_version, SEED_CONFIG_PACK_SCHEMA_VERSION);
    assert_eq!(pack.pack_name, "default");
    assert!(pack.seed_overrides.is_empty());
    assert_eq!(SeedConfigPack::named("  "), Err(SeedConfigPackError::InvalidPackName));

    let blank = StringMap::from_pairs(vec![(" ".to_owned(), "0x1".to_owned())]);
    assert_eq!(
        SeedConfigPack::new("p", blank),
        Err(SeedConfigPackError::InvalidOverridePath { path: " ".to_owned() })
    );

    let mut pack = SeedConfigPack::named("p").expect("named pack");
    pack.schema_version = "v0".to_owned();
    let error = pack.validate().expect_err("wrong schema");
    assert_eq!(
        error.to_string(),
        "expected seed config pack schema version `wr_seed_config_pack/v1`, found `v0`"
    );
    assert_eq!(SeedConfigPackError::InvalidPackName.to_string(), "seed config pack name must not be blank");
}

#[test]
fn core_telemetry_env_overrides_apply_in_order() {
    let config = TelemetryConfig::from_env(false, Some(" OFF "), Some("yes"), Some("Tracy")).expect("valid");
    assert!(!config.enable_metrics);
    assert!(config.enable_tracing);
    assert_eq!(config.profiler_backend, ProfilerBackend::Tracy);

    let config = TelemetryConfig::from_env(true, None, None, None).expect("defaults");
    assert_eq!(config, TelemetryConfig::for_build(true));

    let error = TelemetryConfig::headless_from_env(Some("maybe"), Some("also bad"), None).expect_err("bad metrics");
    assert_eq!(
        error,
        TelemetryConfigError::InvalidBoolean { env: ENV_ENABLE_METRICS, value: "maybe".to_owned() }
    );
    assert_eq!(
        error.to_string(),
        "environment variable `WRELA_ENABLE_METRICS` expected a boolean value, found `maybe`"
    );
    let error = TelemetryConfig::headless_from_env(None, None, Some("perf")).expect_err("bad profiler");
    assert_eq!(
        error.to_string(),
        "environment variable `WRELA_PROFILER` expected `disabled` or `tracy`, found `perf`"
    );
    assert_eq!(ProfilerBackend::parse_env("  ").expect("blank is disabled"), ProfilerBackend::Disabled);
    assert_eq!(parse_bool_env(ENV_ENABLE_METRICS, "1"), Ok(true));
    assert_eq!(parse_bool_env(ENV_ENABLE_METRICS, "No"), Ok(false));
}

#[test]
fn core_tweak_names_and_errors() {
    let names = TweakNamespace::all().iter().map(|n| n.as_str()).collect::<Vec<_>>();
    assert_eq!(names, vec!["world", "atmosphere", "lighting", "foliage", "player", "combat", "wraith", "vfx"]);
    assert_eq!(TweakNamespace::Vfx.label(), "VFX");
    assert_eq!(TweakValueKind::Toggle.label(), "toggle");
    assert_eq!(
        TweakError::TypeMismatch {
            key: "world.fog".to_owned(),
            expected: TweakValueKind::Scalar,
            found: TweakValueKind::Toggle,
        }
        .to_string(),
        "tweak `world.fog` expected scalar but found toggle"
    );
    assert_eq!(TweakError::UnknownKey { key: "x".to_owned() }.to_string(), "unknown tweak key `x`");
}

#[test]
fn string_map_keeps_keys_sorted_and_later_values_win() {
    let mut map = StringMap::new();
    assert_eq!(map.insert("b".to_owned(), "1".to_owned()), None);
    assert_eq!(map.insert("a".to_owned(), "2".to_owned()), None);
    assert_eq!(map.insert("b".to_owned(), "3".to_owned()), Some("1".to_owned()));
    assert_eq!(map.len(), 2);
    assert_eq!(map.key_at(0), "a");
    assert_eq!(map.value_at(1), "3");
    assert_eq!(map.get("b").map(|v| v.as_str()), Some("3"));
    assert_eq!(map.get("c"), None);

    let map = StringMap::from_pairs(vec![
        ("k".to_owned(), "first".to_owned()),
        ("j".to_owned(), "x".to_owned()),
        ("k".to_owned(), "second".to_owned()),
    ]);
    assert_eq!(map.len(), 2);
    assert_eq!(map.get("k").map(|v| v.as_str()), Some("second"));
    assert_eq!(map.key_at(0), "j");
}
