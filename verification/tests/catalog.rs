use poe_catalog::cache::CacheSlot;
use poe_catalog::config::{merge_rules_enabled, resolve_fetch_mode, CatalogConfig, FetchMode};
use poe_catalog::gate::AdmissionGate;
use poe_catalog::merge::{merge, merge_catalog, merge_normalized};
use poe_catalog::records::{CatalogError, CustomModelEntry, ModelRecord, OverrideEntry};
use poe_catalog::source::normalize_records;

fn record(id: &str, object: &str, created: i64, owned_by: &str) -> ModelRecord {
    ModelRecord {
        id: id.to_string(),
        object: object.to_string(),
        created,
        owned_by: owned_by.to_string(),
    }
}

fn upstream_record(id: &str) -> ModelRecord {
    record(id, "upstream-object", 7, "upstream-owner")
}

fn rule(id: &str, enable: bool, mapping: Option<&str>) -> OverrideEntry {
    OverrideEntry {
        id: id.to_string(),
        enable,
        mapping: mapping.map(|m| m.to_string()),
    }
}

fn custom(id: &str) -> CustomModelEntry {
    CustomModelEntry {
        id: id.to_string(),
        created: None,
        owned_by: None,
    }
}

fn base_config() -> CatalogConfig {
    CatalogConfig {
        merge_enabled: Some(true),
        use_v1_api: None,
        api_token: None,
        overrides: Vec::new(),
        custom_models: Vec::new(),
        min_interval_ms: 100,
    }
}

#[test]
fn merge_enable_disable() {
    let upstream = vec![upstream_record("a"), upstream_record("b")];
    let overrides = vec![rule("b", false, None)];
    let customs: Vec<CustomModelEntry> = Vec::new();
    let out = merge(&upstream, &overrides, &customs, 0);
    assert_eq!(out.len(), 1);
    assert_eq!(out[0], upstream_record("a"));
}

#[test]
fn merge_rename() {
    let upstream = vec![upstream_record("a")];
    let overrides = vec![rule("a", true, Some("A2"))];
    let customs: Vec<CustomModelEntry> = Vec::new();
    let out = merge(&upstream, &overrides, &customs, 0);
    assert_eq!(out.len(), 1);
    assert_eq!(out[0].id, "a2");
    assert_eq!(out[0].object, "upstream-object");
    assert_eq!(out[0].created, 7);
    assert_eq!(out[0].owned_by, "upstream-owner");
}

#[test]
fn merge_rename_uppercase_key() {
    let upstream = vec![upstream_record("A")];
    let overrides = vec![rule("A", true, Some("A2"))];
    let customs: Vec<CustomModelEntry> = Vec::new();
    let out = merge(&upstream, &overrides, &customs, 0);
    assert_eq!(out.len(), 1);
    assert_eq!(out[0].id, "a2");
}

#[test]
fn merge_passthrough_without_override() {
    let upstream = vec![upstream_record("MiXeD")];
    let overrides: Vec<OverrideEntry> = Vec::new();
    let customs: Vec<CustomModelEntry> = Vec::new();
    let out = merge(&upstream, &overrides, &customs, 0);
    assert_eq!(out.len(), 1);
    assert_eq!(out[0].id, "mixed");
    assert_eq!(out[0].object, "upstream-object");
}

#[test]
fn custom_injection_skips_duplicates() {
    let upstream = vec![upstream_record("x")];
    let overrides: Vec<OverrideEntry> = Vec::new();
    let customs = vec![custom("x"), custom("y")];
    let out = merge(&upstream, &overrides, &customs, 42);
    assert_eq!(out.len(), 2);
    assert_eq!(out[0].id, "x");
    // the surviving "x" record is the upstream one, not the custom entry
    assert_eq!(out[0].object, "upstream-object");
    assert_eq!(out[1].id, "y");
    assert_eq!(out[1].object, "model");
}

#[test]
fn custom_entry_defaults() {
    let upstream: Vec<ModelRecord> = Vec::new();
    let overrides: Vec<OverrideEntry> = Vec::new();
    let customs = vec![CustomModelEntry {
        id: "Fresh".to_string(),
        created: None,
        owned_by: None,
    }];
    let out = merge(&upstream, &overrides, &customs, 1234);
    assert_eq!(out.len(), 1);
    assert_eq!(out[0].id, "fresh");
    assert_eq!(out[0].object, "model");
    assert_eq!(out[0].created, 1234);
    assert_eq!(out[0].owned_by, "poe");
}

#[test]
fn custom_entry_explicit_fields() {
    let upstream: Vec<ModelRecord> = Vec::new();
    let overrides: Vec<OverrideEntry> = Vec::new();
    let customs = vec![CustomModelEntry {
        id: "own".to_string(),
        created: Some(55),
        owned_by: Some("operator".to_string()),
    }];
    let out = merge(&upstream, &overrides, &customs, 1234);
    assert_eq!(out.len(), 1);
    assert_eq!(out[0].created, 55);
    assert_eq!(out[0].owned_by, "operator");
}

#[test]
fn custom_entry_disabled_by_override() {
    let upstream: Vec<ModelRecord> = Vec::new();
    let overrides = vec![rule("z", false, None)];
    let customs = vec![custom("z")];
    let out = merge(&upstream, &overrides, &customs, 0);
    assert_eq!(out.len(), 0);
}

#[test]
fn rename_collision_is_not_deduplicated() {
    let upstream = vec![upstream_record("a"), upstream_record("b")];
    let overrides = vec![rule("a", true, Some("b"))];
    let customs: Vec<CustomModelEntry> = Vec::new();
    let out = merge(&upstream, &overrides, &customs, 0);
    assert_eq!(out.len(), 2);
    assert_eq!(out[0].id, "b");
    assert_eq!(out[1].id, "b");
}

#[test]
fn merge_normalized_takes_ids_as_given() {
    let upstream = vec![upstream_record("Keep")];
    let overrides: Vec<OverrideEntry> = Vec::new();
    let customs: Vec<CustomModelEntry> = Vec::new();
    let out = merge_normalized(&upstream, &overrides, &customs, 0);
    assert_eq!(out.len(), 1);
    assert_eq!(out[0].id, "Keep");
}

#[test]
fn merge_first_override_entry_governs() {
    let upstream = vec![upstream_record("a")];
    let overrides = vec![rule("a", false, None), rule("a", true, None)];
    let customs: Vec<CustomModelEntry> = Vec::new();
    let out = merge(&upstream, &overrides, &customs, 0);
    assert_eq!(out.len(), 0);
}

#[test]
fn merge_catalog_uses_clock_for_custom_created() {
    let upstream: Vec<ModelRecord> = Vec::new();
    let overrides: Vec<OverrideEntry> = Vec::new();
    let customs = vec![custom("clocked")];
    let out = merge_catalog(&upstream, &overrides, &customs);
    assert_eq!(out.len(), 1);
    assert_eq!(out[0].id, "clocked");
    // a plausible wall-clock reading, not a dummy constant
    assert!(out[0].created > 1_600_000_000);
}

#[test]
fn normalize_records_lowercases_ids_only() {
    let models = vec![record("GPT-Like", "OBJ", 3, "Owner")];
    let out = normalize_records(&models);
    assert_eq!(out.len(), 1);
    assert_eq!(out[0].id, "gpt-like");
    assert_eq!(out[0].object, "OBJ");
    assert_eq!(out[0].owned_by, "Owner");
}

#[test]
fn cache_fast_path_idempotent() {
    let mut slot = CacheSlot::empty();
    let models = vec![upstream_record("a"), upstream_record("b")];
    let installed = slot.install_fetched(Ok(models.clone()));
    assert_eq!(installed, Ok(models.clone()));
    let first = slot.lookup();
    let second = slot.lookup();
    assert_eq!(first, Some(models.clone()));
    assert_eq!(second, Some(models));
    assert_eq!(first, second);
}

#[test]
fn cache_miss_then_failed_population_leaves_slot_empty() {
    let mut slot = CacheSlot::empty();
    assert_eq!(slot.lookup(), None);
    let outcome = slot.install_fetched(Err(CatalogError::UpstreamFailure("boom".to_string())));
    assert_eq!(
        outcome,
        Err(CatalogError::CachePopulationFailure("boom".to_string()))
    );
    assert_eq!(slot.lookup(), None);
}

#[test]
fn cache_miss_then_successful_population() {
    let mut slot = CacheSlot::empty();
    assert_eq!(slot.lookup(), None);
    let models = vec![upstream_record("m")];
    let outcome = slot.install_fetched(Ok(models.clone()));
    assert_eq!(outcome, Ok(models.clone()));
    assert_eq!(slot.lookup(), Some(models));
}

#[test]
fn force_install_replaces_unconditionally() {
    let mut slot = CacheSlot::empty();
    let old_models = vec![upstream_record("old")];
    slot.install_fetched(Ok(old_models)).unwrap();
    let new_models = vec![upstream_record("new")];
    let outcome = slot.force_install(Ok(new_models.clone()));
    assert_eq!(outcome, Ok(new_models.clone()));
    assert_eq!(slot.lookup(), Some(new_models));
}

#[test]
fn force_install_failure_keeps_slot_and_error() {
    let mut slot = CacheSlot::empty();
    let models = vec![upstream_record("kept")];
    slot.force_install(Ok(models.clone())).unwrap();
    let outcome = slot.force_install(Err(CatalogError::UpstreamFailure("down".to_string())));
    assert_eq!(
        outcome,
        Err(CatalogError::UpstreamFailure("down".to_string()))
    );
    assert_eq!(slot.lookup(), Some(models));
}

#[test]
fn admission_spacing() {
    let mut gate = AdmissionGate::new(1_000, 60_000);
    let first = gate.admit_at(1_000, 100);
    assert_eq!(first, 0);
    // 10 ms of caller-side work between the two calls
    let second = gate.admit_at(1_010, 100);
    assert!(second >= 90);
    assert_eq!(second, 90);
}

#[test]
fn admission_zero_interval_never_delays() {
    let mut gate = AdmissionGate::new(0, 0);
    assert_eq!(gate.admit_at(0, 0), 0);
    assert_eq!(gate.admit_at(0, 0), 0);
    assert_eq!(gate.admit_at(5, 0), 0);
    assert_eq!(gate.admit_at(1_000_000, 0), 0);
}

#[test]
fn admission_records_admission_time() {
    let mut gate = AdmissionGate::new(500, 0);
    let delay = gate.admit_at(600, 250);
    // 100 ms elapsed of a 250 ms interval: delayed the remaining 150 ms
    assert_eq!(delay, 150);
    assert_eq!(gate.last_served_ms, 750);
    let delay2 = gate.admit_at(10_000, 250);
    assert_eq!(delay2, 0);
    assert_eq!(gate.last_served_ms, 10_000);
}

#[test]
fn resolve_fetch_mode_token_listing() {
    let mut config = base_config();
    config.use_v1_api = Some(true);
    config.api_token = Some("test-token".to_string());
    let mode = resolve_fetch_mode(&config);
    assert_eq!(mode, Ok(FetchMode::TokenListing("test-token".to_string())));
}

#[test]
fn resolve_fetch_mode_missing_credential() {
    let mut config = base_config();
    config.use_v1_api = Some(true);
    config.api_token = None;
    let mode = resolve_fetch_mode(&config);
    assert_eq!(mode, Err(CatalogError::MissingCredential));
}

#[test]
fn resolve_fetch_mode_legacy_default() {
    let mut config = base_config();
    config.use_v1_api = None;
    let mode = resolve_fetch_mode(&config);
    assert_eq!(mode, Ok(FetchMode::LegacyListing));
    config.use_v1_api = Some(false);
    config.api_token = Some("test-token".to_string());
    let mode2 = resolve_fetch_mode(&config);
    assert_eq!(mode2, Ok(FetchMode::LegacyListing));
}

#[test]
fn merge_rules_enabled_only_when_set_true() {
    assert!(merge_rules_enabled(Some(true)));
    assert!(!merge_rules_enabled(Some(false)));
    assert!(!merge_rules_enabled(None));
}

#[test]
fn error_messages() {
    let missing = CatalogError::MissingCredential;
    assert!(!missing.describe().is_empty());
    let upstream = CatalogError::UpstreamFailure("timed out".to_string());
    assert_eq!(upstream.describe(), "timed out");
    let population = CatalogError::CachePopulationFailure("no route".to_string());
    assert_eq!(population.describe(), "no route");
}

#[test]
fn merge_empty_upstream_and_customs() {
    let upstream: Vec<ModelRecord> = Vec::new();
    let overrides = vec![rule("anything", false, None)];
    let customs: Vec<CustomModelEntry> = Vec::new();
    let out = merge(&upstream, &overrides, &customs, 0);
    assert!(out.is_empty());
}
