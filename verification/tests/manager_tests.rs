use hyprwhspr_rs::manager::{config_file_in, legacy_file_in, POLL_INTERVAL_MS};
use hyprwhspr_rs::{
    Config, ConfigError, ConfigManager, FileState, LoadPlan, PathSet, ReloadOutcome, Watcher,
};

fn present(paths: &[&str]) -> PathSet {
    let mut set = PathSet::new();
    for p in paths {
        set.insert(p.to_string());
    }
    set
}

#[test]
fn backing_file_names() {
    assert_eq!(config_file_in("/home/u/.config/hyprwhspr-rs"), "/home/u/.config/hyprwhspr-rs/config.jsonc");
    assert_eq!(legacy_file_in("/home/u/.config/hyprwhspr-rs"), "/home/u/.config/hyprwhspr-rs/config.json");
}

#[test]
fn the_backing_file_is_read_where_it_exists() {
    let set = present(&["/c/config.jsonc", "/c/config.json"]);
    let plan = LoadPlan::decide("/c", &set);
    assert_eq!(plan, LoadPlan::ReadCurrent);
    assert_eq!(plan.source("/c"), Some("/c/config.jsonc".to_string()));
    assert!(!plan.writes());
    assert_eq!(LoadPlan::decide("/c", &present(&["/c/config.jsonc"])), LoadPlan::ReadCurrent);
}

#[test]
fn the_earlier_file_is_migrated_where_only_it_exists() {
    let plan = LoadPlan::decide("/c", &present(&["/c/config.json"]));
    assert_eq!(plan, LoadPlan::MigrateLegacy);
    assert_eq!(plan.source("/c"), Some("/c/config.json".to_string()));
    assert!(plan.writes());
}

#[test]
fn defaults_are_created_where_no_file_exists() {
    let plan = LoadPlan::decide("/c", &present(&["/other/config.jsonc"]));
    assert_eq!(plan, LoadPlan::CreateDefault);
    assert_eq!(plan.source("/c"), None);
    assert!(plan.writes());
}

#[test]
fn loading_without_a_file_gives_the_defaults() {
    let manager = ConfigManager::load("/c", None);
    assert!(manager.get() == Config::default());
    assert_eq!(manager.config_path(), "/c/config.jsonc");
    assert_eq!(manager.version(), 0);
}

#[test]
fn loading_migrates_and_normalizes_what_was_decoded() {
    let mut decoded = Config::default();
    decoded.legacy_model = Some("m".to_string());
    decoded.primary_shortcut = " CTRL+D ".to_string();
    let manager = ConfigManager::load("/c", Some(decoded));
    let held = manager.get();
    assert_eq!(held.transcription.whisper_cpp.model, "m");
    assert_eq!(held.legacy_model, None);
    assert_eq!(held.press_shortcut(), Some("CTRL+D"));
    assert_eq!(held.primary_shortcut, "CTRL+D");
}

#[test]
fn a_snapshot_is_independent_of_the_store() {
    let manager = ConfigManager::load("/c", None);
    let mut copy = manager.get();
    copy.audio_feedback = true;
    copy.primary_shortcut = "X".to_string();
    assert!(manager.get() == Config::default());
}

#[test]
fn the_watcher_is_started_once() {
    let mut manager = ConfigManager::load("/c", None);
    assert!(manager.start_watching());
    assert!(!manager.start_watching());
    assert!(!manager.start_watching());
    assert_eq!(manager.version(), 0);
    assert!(manager.get() == Config::default());
}

#[test]
fn a_save_that_was_persisted_replaces_and_publishes() {
    let mut manager = ConfigManager::load("/c", None);
    let (mut subscriber, first) = manager.subscribe();
    assert!(first == Config::default());
    let mut new = manager.get();
    new.shortcuts.press = Some(" CTRL+D ".to_string());
    new.primary_shortcut = "CTRL+D".to_string();
    new.audio_feedback = true;
    assert_eq!(manager.save(new, Ok(())), Ok(()));
    let held = manager.get();
    assert_eq!(held.press_shortcut(), Some("CTRL+D"));
    assert_eq!(held.primary_shortcut, "CTRL+D");
    assert!(held.audio_feedback);
    assert_eq!(manager.version(), 1);
    let seen = subscriber.poll(&manager).expect("published");
    assert!(seen == held);
    assert!(subscriber.poll(&manager).is_none());
}

#[test]
fn a_save_that_was_not_persisted_changes_nothing() {
    let mut manager = ConfigManager::load("/c", None);
    let (mut subscriber, _) = manager.subscribe();
    let mut new = manager.get();
    new.audio_feedback = true;
    assert_eq!(manager.save(new.clone(), Err(ConfigError::Io)), Err(ConfigError::Io));
    assert_eq!(manager.save(new, Err(ConfigError::Encode)), Err(ConfigError::Encode));
    assert!(manager.get() == Config::default());
    assert_eq!(manager.version(), 0);
    assert!(subscriber.poll(&manager).is_none());
}

#[test]
fn saving_a_new_press_shortcut_changes_that_shortcut_only() {
    let mut manager = ConfigManager::load("/c", None);
    let before = manager.get();
    let mut new = manager.get();
    new.shortcuts.press = Some("CTRL+SHIFT+V".to_string());
    new.primary_shortcut = String::new();
    let prepared = ConfigManager::prepare_save(&new);
    assert_eq!(prepared.press_shortcut(), Some("CTRL+SHIFT+V"));
    assert_eq!(manager.save(new, Ok(())), Ok(()));
    let after = manager.get();
    assert_eq!(after.press_shortcut(), Some("CTRL+SHIFT+V"));
    let mut expected = before.clone();
    expected.shortcuts.press = Some("CTRL+SHIFT+V".to_string());
    expected.primary_shortcut = "CTRL+SHIFT+V".to_string();
    assert!(after == expected);
    let reloaded = ConfigManager::load("/c", Some(after.clone()));
    assert!(reloaded.get() == after);
}

#[test]
fn a_reload_with_new_settings_is_applied_and_published() {
    let mut manager = ConfigManager::load("/c", None);
    let (mut subscriber, _) = manager.subscribe();
    let mut edited = Config::default();
    edited.transcription.whisper_cpp.threads = 8;
    edited.legacy_whisper_prompt = Some("P".to_string());
    assert_eq!(manager.apply_reload(Ok(edited)), ReloadOutcome::Applied);
    assert_eq!(manager.version(), 1);
    let held = manager.get();
    assert_eq!(held.transcription.whisper_cpp.threads, 8);
    assert_eq!(held.transcription.gemini.prompt, "P");
    assert_eq!(held.legacy_whisper_prompt, None);
    assert!(subscriber.poll(&manager).expect("published") == held);
}

#[test]
fn a_reload_with_the_same_settings_publishes_nothing() {
    let mut manager = ConfigManager::load("/c", None);
    let (mut subscriber, _) = manager.subscribe();
    let mut same = Config::default();
    same.primary_shortcut = "  SUPER+ALT+R ".to_string();
    same.shortcuts.hold = Some("   ".to_string());
    assert_eq!(manager.apply_reload(Ok(same)), ReloadOutcome::Unchanged);
    assert_eq!(manager.apply_reload(Ok(Config::default())), ReloadOutcome::Unchanged);
    assert_eq!(manager.version(), 0);
    assert!(subscriber.poll(&manager).is_none());
}

#[test]
fn a_reload_that_failed_keeps_the_held_settings() {
    let mut manager = ConfigManager::load("/c", None);
    let mut edited = Config::default();
    edited.audio_feedback = true;
    assert_eq!(manager.apply_reload(Ok(edited)), ReloadOutcome::Applied);
    let held = manager.get();
    assert_eq!(
        manager.apply_reload(Err(ConfigError::MalformedDocument)),
        ReloadOutcome::Rejected(ConfigError::MalformedDocument)
    );
    assert_eq!(manager.apply_reload(Err(ConfigError::Io)), ReloadOutcome::Rejected(ConfigError::Io));
    assert!(manager.get() == held);
    assert_eq!(manager.version(), 1);
}

#[test]
fn a_slow_subscriber_sees_the_latest_value_only() {
    let mut manager = ConfigManager::load("/c", None);
    let (mut slow, _) = manager.subscribe();
    for threads in [2usize, 3, 5] {
        let mut new = manager.get();
        new.transcription.whisper_cpp.threads = threads;
        assert_eq!(manager.save(new, Ok(())), Ok(()));
    }
    let (mut late, current) = manager.subscribe();
    assert_eq!(current.transcription.whisper_cpp.threads, 5);
    assert!(late.poll(&manager).is_none());
    let seen = slow.poll(&manager).expect("published");
    assert_eq!(seen.transcription.whisper_cpp.threads, 5);
    assert!(slow.poll(&manager).is_none());
    assert_eq!(manager.version(), 3);
}

#[test]
fn numbers_that_are_not_numbers_always_differ() {
    let mut manager = ConfigManager::load("/c", None);
    let mut odd = Config::default();
    odd.start_sound_volume = hyprwhspr_rs::Real32::from_bits(f32::NAN.to_bits());
    assert_eq!(manager.apply_reload(Ok(odd.clone())), ReloadOutcome::Applied);
    assert_eq!(manager.apply_reload(Ok(odd)), ReloadOutcome::Applied);
    assert_eq!(manager.version(), 2);
}

#[test]
fn the_watcher_asks_for_a_reload_when_the_file_changed() {
    let first = FileState { modified_nanos: 1_700_000_000_000_000_000, len: 120 };
    let mut watcher = Watcher::new(Some(first));
    assert!(!watcher.tick(Some(first)));
    assert!(!watcher.tick(Some(first)));
    let longer = FileState { modified_nanos: first.modified_nanos, len: 121 };
    assert!(watcher.tick(Some(longer)));
    assert!(!watcher.tick(Some(longer)));
    let later = FileState { modified_nanos: first.modified_nanos + 1, len: 121 };
    assert!(watcher.tick(Some(later)));
    assert!(watcher.tick(None));
    assert!(!watcher.tick(None));
    assert!(watcher.tick(Some(later)));
    assert_eq!(watcher.last_state, Some(later));
}

#[test]
fn the_watcher_of_a_missing_file_waits_for_it() {
    let mut watcher = Watcher::new(None);
    assert!(!watcher.tick(None));
    assert!(watcher.tick(Some(FileState { modified_nanos: -5, len: 0 })));
}

#[test]
fn the_poll_interval_is_half_a_second() {
    assert_eq!(POLL_INTERVAL_MS, 500);
}

#[test]
fn the_store_resolves_paths_from_its_settings() {
    let mut decoded = Config::default();
    decoded.transcription.whisper_cpp.models_dirs = vec!["~/m".to_string()];
    decoded.transcription.whisper_cpp.vad.enabled = true;
    let manager = ConfigManager::load("/c", Some(decoded));
    let set = present(&["/home/u/m", "/home/u/m/ggml-base.en.bin", "/c/ggml-silero-v5.1.2.bin", "/usr/bin/whisper-cli"]);
    assert_eq!(manager.get_model_path(Some("/home/u"), &set), "/home/u/m/ggml-base.en.bin");
    assert_eq!(
        manager.get_vad_model_path(&manager.get(), Some("/appdir"), Some("/home/u"), &set),
        Some("/c/ggml-silero-v5.1.2.bin".to_string())
    );
    assert_eq!(
        manager.get_whisper_binary_candidates(true, "/home/u", &set),
        vec!["/usr/bin/whisper-cli".to_string()]
    );
    assert_eq!(manager.get_temp_dir("/data"), "/data/temp");
    assert_eq!(manager.get_assets_dir(&set), "assets");
}
