use agama_l10n::{
    Catalog, CatalogEntry, Event, L10n, LocaleBackend, LocaleConfig, LocaleError, LocaleState,
};
use tokio::sync::broadcast::{channel, Receiver, Sender};

fn entry(code: &str, display: &str) -> CatalogEntry {
    CatalogEntry { code: code.to_string(), display: display.to_string() }
}

fn build_l10n() -> L10n {
    let locales = Catalog::new(vec![
        entry("en_US", "English (United States)"),
        entry("de_DE", "German (Germany)"),
        entry("es_ES", "Spanish (Spain)"),
    ]);
    let timezones = Catalog::new(vec![
        entry("UTC", "UTC"),
        entry("Atlantic/Canary", "Canary Islands"),
        entry("Europe/Berlin", "Berlin"),
    ]);
    let keymaps = Catalog::new(vec![entry("us", "English (US)"), entry("de", "German")]);
    L10n::new(
        locales,
        timezones,
        keymaps,
        vec!["en_US".to_string()],
        "us".to_string(),
        "UTC".to_string(),
        "en_US".to_string(),
        "us".to_string(),
    )
}

fn build_state() -> (LocaleState, Receiver<Event>) {
    let (tx, rx): (Sender<Event>, Receiver<Event>) = channel(16);
    (LocaleState::new(build_l10n(), tx), rx)
}

fn empty_request() -> LocaleConfig {
    LocaleConfig { locales: None, keymap: None, timezone: None, ui_locale: None, ui_keymap: None }
}

struct RecordingBackend {
    service_locales: Vec<String>,
    applied_keymaps: Vec<String>,
}

impl RecordingBackend {
    fn new() -> RecordingBackend {
        RecordingBackend { service_locales: Vec::new(), applied_keymaps: Vec::new() }
    }
}

impl LocaleBackend for RecordingBackend {
    fn set_service_locale(&mut self, locale: &str) {
        self.service_locales.push(locale.to_string());
    }

    fn apply_keymap(&mut self, keymap: &str) -> Result<(), String> {
        self.applied_keymaps.push(keymap.to_string());
        Ok(())
    }
}

struct FailingBackend;

impl LocaleBackend for FailingBackend {
    fn set_service_locale(&mut self, _locale: &str) {}

    fn apply_keymap(&mut self, _keymap: &str) -> Result<(), String> {
        Err("no active display".to_string())
    }
}

#[test]
fn test_locales() {
    let (state, _rx) = build_state();
    let response = state.locales();
    let found = response.iter().find(|l| l.code == "en_US");
    assert!(found.is_some());
}

#[test]
fn test_keymaps() {
    let (state, _rx) = build_state();
    let response = state.keymaps();
    let found = response.iter().find(|k| k.code == "us");
    assert!(found.is_some());
}

#[test]
fn test_timezones() {
    let (state, _rx) = build_state();
    let response = state.timezones();
    let found = response.iter().find(|t| t.code == "Atlantic/Canary");
    assert!(found.is_some());
}

#[test]
fn test_catalog_round_trip() {
    let catalog = Catalog::new(vec![
        entry("en_US", "English (United States)"),
        entry("de_DE", "German (Germany)"),
        entry("es_ES", "Spanish (Spain)"),
    ]);
    for row in catalog.entries() {
        assert!(catalog.contains_code(&row.code));
    }
    let (state, _rx) = build_state();
    for row in state.timezones() {
        let timezones = Catalog::new(state.timezones());
        assert!(timezones.contains_code(&row.code));
    }
    for row in state.keymaps() {
        let keymaps = Catalog::new(state.keymaps());
        assert!(keymaps.contains_code(&row.code));
    }
}

#[test]
fn test_contains_code_rejects_unknown() {
    let catalog = Catalog::new(vec![entry("us", "English (US)")]);
    assert!(catalog.contains_code("us"));
    assert!(!catalog.contains_code("zz"));
    assert!(!catalog.contains_code(""));
}

#[test]
fn test_snapshot_all_fields_populated() {
    let (state, _rx) = build_state();
    let snapshot = state.snapshot();
    assert_eq!(snapshot.locales, Some(vec!["en_US".to_string()]));
    assert_eq!(snapshot.keymap, Some("us".to_string()));
    assert_eq!(snapshot.timezone, Some("UTC".to_string()));
    assert_eq!(snapshot.ui_locale, Some("en_US".to_string()));
    assert_eq!(snapshot.ui_keymap, Some("us".to_string()));
}

#[test]
fn test_update_timezone() {
    let (state, _rx) = build_state();
    let mut backend = RecordingBackend::new();
    let request = LocaleConfig { timezone: Some("Atlantic/Canary".to_string()), ..empty_request() };
    let changes = state.set_config(&request, &mut backend).unwrap();
    assert_eq!(changes.timezone, Some("Atlantic/Canary".to_string()));
    let snapshot = state.snapshot();
    assert_eq!(snapshot.timezone, Some("Atlantic/Canary".to_string()));
    assert_eq!(snapshot.locales, Some(vec!["en_US".to_string()]));
}

#[test]
fn test_unknown_timezone_rejected() {
    let (state, mut rx) = build_state();
    let mut backend = RecordingBackend::new();
    let before = state.snapshot();
    let request = LocaleConfig { timezone: Some("Mars/OlympusMons".to_string()), ..empty_request() };
    let err = state.set_config(&request, &mut backend).unwrap_err();
    match err {
        LocaleError::UnknownTimezone(code) => assert_eq!(code, "Mars/OlympusMons"),
        other => panic!("unexpected error: {:?}", other),
    }
    let after = state.snapshot();
    assert_eq!(before.locales, after.locales);
    assert_eq!(before.keymap, after.keymap);
    assert_eq!(before.timezone, after.timezone);
    assert_eq!(before.ui_locale, after.ui_locale);
    assert_eq!(before.ui_keymap, after.ui_keymap);
    assert!(rx.try_recv().is_err());
}

#[test]
fn test_keymap_change_notified() {
    let (state, mut rx) = build_state();
    let mut backend = RecordingBackend::new();
    let request = LocaleConfig { keymap: Some("us".to_string()), ..empty_request() };
    state.set_config(&request, &mut backend).unwrap();
    match rx.try_recv().unwrap() {
        Event::L10nConfigChanged(changes) => {
            assert_eq!(changes.keymap, Some("us".to_string()));
            assert_eq!(changes.locales, None);
            assert_eq!(changes.timezone, None);
            assert_eq!(changes.ui_locale, None);
            assert_eq!(changes.ui_keymap, None);
        }
        other => panic!("unexpected event: {:?}", other),
    }
    assert!(rx.try_recv().is_err());
}

#[test]
fn test_ui_locale_change_notified_twice() {
    let (state, mut rx) = build_state();
    let mut backend = RecordingBackend::new();
    let request = LocaleConfig { ui_locale: Some("de_DE".to_string()), ..empty_request() };
    state.set_config(&request, &mut backend).unwrap();
    assert_eq!(backend.service_locales, vec!["de_DE".to_string()]);
    let mut saw_locale_changed = false;
    let mut saw_config_changed = false;
    while let Ok(event) = rx.try_recv() {
        match event {
            Event::LocaleChanged { locale } => {
                assert_eq!(locale, "de_DE");
                saw_locale_changed = true;
            }
            Event::L10nConfigChanged(changes) => {
                assert_eq!(changes.ui_locale, Some("de_DE".to_string()));
                assert_eq!(changes.keymap, None);
                saw_config_changed = true;
            }
        }
    }
    assert!(saw_locale_changed);
    assert!(saw_config_changed);
}

#[test]
fn test_full_update_applies_every_field() {
    let (state, _rx) = build_state();
    let mut backend = RecordingBackend::new();
    let request = LocaleConfig {
        locales: Some(vec!["de_DE".to_string(), "es_ES".to_string()]),
        keymap: Some("de".to_string()),
        timezone: Some("Europe/Berlin".to_string()),
        ui_locale: Some("es_ES".to_string()),
        ui_keymap: Some("de".to_string()),
    };
    let changes = state.set_config(&request, &mut backend).unwrap();
    assert_eq!(changes.locales, Some(vec!["de_DE".to_string(), "es_ES".to_string()]));
    assert_eq!(changes.ui_keymap, Some("de".to_string()));
    assert_eq!(backend.applied_keymaps, vec!["de".to_string()]);
    let snapshot = state.snapshot();
    assert_eq!(snapshot.locales, Some(vec!["de_DE".to_string(), "es_ES".to_string()]));
    assert_eq!(snapshot.keymap, Some("de".to_string()));
    assert_eq!(snapshot.timezone, Some("Europe/Berlin".to_string()));
    assert_eq!(snapshot.ui_locale, Some("es_ES".to_string()));
    assert_eq!(snapshot.ui_keymap, Some("de".to_string()));
}

#[test]
fn test_first_unknown_locale_reported() {
    let (state, _rx) = build_state();
    let mut backend = RecordingBackend::new();
    let request = LocaleConfig {
        locales: Some(vec!["en_US".to_string(), "xx_XX".to_string(), "yy_YY".to_string()]),
        timezone: Some("Europe/Berlin".to_string()),
        ..empty_request()
    };
    let err = state.set_config(&request, &mut backend).unwrap_err();
    match err {
        LocaleError::UnknownLocale(code) => assert_eq!(code, "xx_XX"),
        other => panic!("unexpected error: {:?}", other),
    }
    let snapshot = state.snapshot();
    assert_eq!(snapshot.timezone, Some("UTC".to_string()));
    assert_eq!(snapshot.locales, Some(vec!["en_US".to_string()]));
}

#[test]
fn test_invalid_keymap_rejected() {
    let (state, _rx) = build_state();
    let mut backend = RecordingBackend::new();
    let request = LocaleConfig { keymap: Some("nosuchmap".to_string()), ..empty_request() };
    let err = state.set_config(&request, &mut backend).unwrap_err();
    match err {
        LocaleError::InvalidKeymap(code) => assert_eq!(code, "nosuchmap"),
        other => panic!("unexpected error: {:?}", other),
    }
}

#[test]
fn test_unknown_ui_locale_rejected() {
    let (state, _rx) = build_state();
    let mut backend = RecordingBackend::new();
    let request = LocaleConfig { ui_locale: Some("tlh_TLH".to_string()), ..empty_request() };
    let err = state.set_config(&request, &mut backend).unwrap_err();
    match err {
        LocaleError::UnknownLocale(code) => assert_eq!(code, "tlh_TLH"),
        other => panic!("unexpected error: {:?}", other),
    }
}

#[test]
fn test_commit_failure_leaves_record_untouched() {
    let (state, mut rx) = build_state();
    let mut backend = FailingBackend;
    let request = LocaleConfig {
        timezone: Some("Europe/Berlin".to_string()),
        ui_keymap: Some("de".to_string()),
        ..empty_request()
    };
    let err = state.set_config(&request, &mut backend).unwrap_err();
    match err {
        LocaleError::Commit(detail) => assert_eq!(detail, "no active display"),
        other => panic!("unexpected error: {:?}", other),
    }
    let snapshot = state.snapshot();
    assert_eq!(snapshot.timezone, Some("UTC".to_string()));
    assert_eq!(snapshot.ui_keymap, Some("us".to_string()));
    assert!(rx.try_recv().is_err());
}

#[test]
fn test_empty_update_succeeds() {
    let (state, mut rx) = build_state();
    let mut backend = RecordingBackend::new();
    let changes = state.set_config(&empty_request(), &mut backend).unwrap();
    assert_eq!(changes.locales, None);
    assert_eq!(changes.keymap, None);
    assert_eq!(changes.timezone, None);
    assert_eq!(changes.ui_locale, None);
    assert_eq!(changes.ui_keymap, None);
    match rx.try_recv().unwrap() {
        Event::L10nConfigChanged(_) => {}
        other => panic!("unexpected event: {:?}", other),
    }
}

#[test]
fn test_error_messages() {
    let unknown_locale = LocaleError::UnknownLocale("xx_XX".to_string());
    assert_eq!(unknown_locale.message(), "Unknown locale code: xx_XX");
    let unknown_timezone = LocaleError::UnknownTimezone("Mars/OlympusMons".to_string());
    assert_eq!(unknown_timezone.message(), "Unknown timezone: Mars/OlympusMons");
    let invalid_keymap = LocaleError::InvalidKeymap("??".to_string());
    assert_eq!(invalid_keymap.message(), "Invalid keymap: ??");
    let commit = LocaleError::Commit("boom".to_string());
    assert_eq!(commit.message(), "Could not apply the changes: boom");
}

#[test]
fn test_default_config_is_empty() {
    let config = LocaleConfig::default();
    assert_eq!(config.locales, None);
    assert_eq!(config.keymap, None);
    assert_eq!(config.timezone, None);
    assert_eq!(config.ui_locale, None);
    assert_eq!(config.ui_keymap, None);
}
