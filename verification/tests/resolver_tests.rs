use hyprwhspr_rs::resolver::{
    existing_in_order, existing_once, first_existing, model_file_name, model_search_candidates,
    model_search_dirs, probe_paths, resolve_assets_dir, resolve_model_path,
    resolve_vad_model_path, temp_dir_in, whisper_binary_candidates, whisper_binary_places,
};
use hyprwhspr_rs::{Config, PathSet};

fn present(paths: &[&str]) -> PathSet {
    let mut set = PathSet::new();
    for p in paths {
        set.insert(p.to_string());
    }
    set
}

fn texts(paths: &[&str]) -> Vec<String> {
    paths.iter().map(|p| p.to_string()).collect()
}

fn config_with_dirs(dirs: &[&str]) -> Config {
    let mut config = Config::default();
    config.transcription.whisper_cpp.models_dirs = texts(dirs);
    config
}

#[test]
fn search_candidates_come_in_order() {
    let config = config_with_dirs(&["~/models", "/opt/models"]);
    assert_eq!(
        model_search_candidates(&config, Some("/home/u")),
        texts(&[
            "/home/u/models",
            "/opt/models",
            "/usr/share/whisper/models",
            "/home/u/.local/share/hyprwhspr-rs/whisper.cpp/models",
        ])
    );
    assert_eq!(
        model_search_candidates(&config, None),
        texts(&["~/models", "/opt/models", "/usr/share/whisper/models"])
    );
}

#[test]
fn search_dirs_are_the_candidates_that_exist() {
    let config = config_with_dirs(&["~/models", "/opt/models", "/missing"]);
    let set = present(&[
        "/home/u/.local/share/hyprwhspr-rs/whisper.cpp/models",
        "/opt/models",
        "/home/u/models",
    ]);
    assert_eq!(
        model_search_dirs(&config, Some("/home/u"), &set),
        texts(&[
            "/home/u/models",
            "/opt/models",
            "/home/u/.local/share/hyprwhspr-rs/whisper.cpp/models",
        ])
    );
    let system_only = present(&["/usr/share/whisper/models"]);
    assert_eq!(
        model_search_dirs(&config, Some("/home/u"), &system_only),
        texts(&["/usr/share/whisper/models"])
    );
    assert!(model_search_dirs(&config, Some("/home/u"), &PathSet::new()).is_empty());
}

#[test]
fn model_file_names() {
    assert_eq!(model_file_name("base", false), "ggml-base.bin");
    assert_eq!(model_file_name("base", true), "ggml-base.en.bin");
    assert_eq!(model_file_name("small.en", false), "ggml-small.en.bin");
}

#[test]
fn english_variant_is_taken_where_only_it_exists() {
    let config = config_with_dirs(&["/m"]);
    let set = present(&["/m", "/m/ggml-base.en.bin"]);
    assert_eq!(resolve_model_path(&config, None, &set), "/m/ggml-base.en.bin");
}

#[test]
fn english_variant_is_preferred_where_both_exist() {
    let config = config_with_dirs(&["/m"]);
    let set = present(&["/m", "/m/ggml-base.en.bin", "/m/ggml-base.bin"]);
    assert_eq!(resolve_model_path(&config, None, &set), "/m/ggml-base.en.bin");
}

#[test]
fn plain_file_is_named_where_no_english_variant_exists() {
    let config = config_with_dirs(&["/m"]);
    assert_eq!(resolve_model_path(&config, None, &present(&["/m"])), "/m/ggml-base.bin");
    assert_eq!(
        resolve_model_path(&config, None, &present(&["/m", "/m/ggml-base.bin"])),
        "/m/ggml-base.bin"
    );
}

#[test]
fn english_name_is_never_extended() {
    let mut config = config_with_dirs(&["/m"]);
    config.transcription.whisper_cpp.model = "base.en".to_string();
    let sets = [
        present(&["/m"]),
        present(&["/m", "/m/ggml-base.en.bin"]),
        present(&["/m", "/m/ggml-base.en.en.bin"]),
        present(&["/m", "/m/ggml-base.en.en.bin", "/m/ggml-base.en.bin"]),
    ];
    for set in sets {
        assert_eq!(resolve_model_path(&config, None, &set), "/m/ggml-base.en.bin");
    }
}

#[test]
fn model_is_looked_for_in_the_first_directory_that_exists() {
    let config = config_with_dirs(&["/a", "/b"]);
    let set = present(&["/b", "/usr/share/whisper/models", "/a/ggml-base.en.bin"]);
    assert_eq!(resolve_model_path(&config, None, &set), "/b/ggml-base.bin");
    let set = present(&["/usr/share/whisper/models", "/usr/share/whisper/models/ggml-base.en.bin"]);
    assert_eq!(
        resolve_model_path(&config, None, &set),
        "/usr/share/whisper/models/ggml-base.en.bin"
    );
}

#[test]
fn current_directory_stands_in_where_no_directory_exists() {
    let config = config_with_dirs(&["/a"]);
    assert_eq!(resolve_model_path(&config, None, &PathSet::new()), "./ggml-base.bin");
    assert_eq!(
        resolve_model_path(&config, None, &present(&["./ggml-base.en.bin"])),
        "./ggml-base.en.bin"
    );
}

fn vad_config(model: &str, dirs: &[&str]) -> Config {
    let mut config = config_with_dirs(dirs);
    config.transcription.whisper_cpp.vad.enabled = true;
    config.transcription.whisper_cpp.vad.model = model.to_string();
    config
}

#[test]
fn no_detector_model_while_the_detector_is_off() {
    let mut config = vad_config("/v.bin", &[]);
    config.transcription.whisper_cpp.vad.enabled = false;
    let set = present(&["/v.bin"]);
    assert_eq!(resolve_vad_model_path(&config, Some("/c"), Some("/c"), None, &set), None);
}

#[test]
fn no_detector_model_for_a_blank_reference() {
    let config = vad_config("  \t", &[]);
    let set = present(&["", "/c/", "  \t"]);
    assert_eq!(resolve_vad_model_path(&config, Some("/c"), Some("/c"), None, &set), None);
}

#[test]
fn detector_model_is_found_in_order_of_preference() {
    let config = vad_config(" vad.bin ", &["/m1", "/m2"]);
    let all = [
        "vad.bin",
        "/backing/vad.bin",
        "/appdir/vad.bin",
        "/m1/vad.bin",
        "/m2/vad.bin",
        "/usr/share/whisper/models/vad.bin",
    ];
    let dirs = ["/m1", "/m2", "/usr/share/whisper/models"];
    for first in 0..all.len() {
        let mut paths: Vec<&str> = dirs.to_vec();
        paths.extend_from_slice(&all[first..]);
        let set = present(&paths);
        assert_eq!(
            resolve_vad_model_path(&config, Some("/backing"), Some("/appdir"), None, &set),
            Some(all[first].to_string())
        );
    }
    assert_eq!(
        resolve_vad_model_path(&config, Some("/backing"), Some("/appdir"), None, &present(&dirs)),
        None
    );
}

#[test]
fn detector_model_below_a_missing_directory_is_not_seen() {
    let config = vad_config("vad.bin", &["/m1"]);
    let set = present(&["/m1/vad.bin"]);
    assert_eq!(resolve_vad_model_path(&config, None, None, None, &set), None);
    let set = present(&["/m1", "/m1/vad.bin"]);
    assert_eq!(
        resolve_vad_model_path(&config, None, None, None, &set),
        Some("/m1/vad.bin".to_string())
    );
}

#[test]
fn absolute_detector_reference_stands_alone() {
    let config = vad_config("/opt/vad.bin", &["/m1"]);
    let set = present(&["/m1", "/opt/vad.bin"]);
    assert_eq!(
        resolve_vad_model_path(&config, Some("/backing"), Some("/appdir"), None, &set),
        Some("/opt/vad.bin".to_string())
    );
    assert_eq!(
        resolve_vad_model_path(&config, Some("/backing"), None, None, &present(&["/m1"])),
        None
    );
}

#[test]
fn existing_paths_keep_their_order() {
    let candidates = texts(&["/c", "/a", "/b", "/a"]);
    let set = present(&["/a", "/c"]);
    assert_eq!(existing_in_order(&candidates, &set), texts(&["/c", "/a", "/a"]));
    assert_eq!(existing_once(&candidates, &set), texts(&["/c", "/a"]));
    assert_eq!(first_existing(&candidates, &set), Some("/c".to_string()));
    assert_eq!(first_existing(&candidates, &PathSet::new()), None);
    assert!(existing_in_order(&Vec::new(), &set).is_empty());
}

#[test]
fn binary_places_in_priority_order() {
    let base = "/home/u/.local/share/hyprwhspr-rs/whisper.cpp";
    assert_eq!(
        whisper_binary_places("/home/u", false),
        vec![
            format!("{}/build/bin/whisper-cli", base),
            format!("{}/whisper-cli", base),
            "/usr/bin/whisper-cli".to_string(),
        ]
    );
    assert_eq!(
        whisper_binary_places("/home/u", true),
        vec![
            format!("{}/build/bin/whisper-cli", base),
            format!("{}/whisper-cli", base),
            "/usr/bin/whisper-cli".to_string(),
            format!("{}/build/bin/main", base),
            format!("{}/build/bin/whisper", base),
            format!("{}/main", base),
            format!("{}/whisper", base),
            "/usr/bin/whisper".to_string(),
        ]
    );
}

#[test]
fn binary_candidates_are_those_that_exist() {
    let base = "/home/u/.local/share/hyprwhspr-rs/whisper.cpp";
    let local_main = format!("{}/main", base);
    let build_cli = format!("{}/build/bin/whisper-cli", base);
    let set = present(&["/usr/bin/whisper", &local_main, "/usr/bin/whisper-cli", &build_cli]);
    assert_eq!(
        whisper_binary_candidates("/home/u", false, &set),
        vec![build_cli.clone(), "/usr/bin/whisper-cli".to_string()]
    );
    assert_eq!(
        whisper_binary_candidates("/home/u", true, &set),
        vec![
            build_cli,
            "/usr/bin/whisper-cli".to_string(),
            local_main,
            "/usr/bin/whisper".to_string(),
        ]
    );
    assert!(whisper_binary_candidates("/home/u", true, &PathSet::new()).is_empty());
}

#[test]
fn binary_candidates_list_no_path_twice() {
    let set = present(&["/usr/bin/whisper-cli", "/usr/bin/whisper"]);
    let found = whisper_binary_candidates("/usr/bin/..", true, &set);
    assert_eq!(found, texts(&["/usr/bin/whisper-cli", "/usr/bin/whisper"]));
    let mut unique = found.clone();
    unique.sort();
    unique.dedup();
    assert_eq!(unique.len(), found.len());
}

#[test]
fn assets_and_scratch_directories() {
    assert_eq!(resolve_assets_dir(&PathSet::new()), "assets");
    assert_eq!(
        resolve_assets_dir(&present(&["/usr/lib/hyprwhspr-rs/share/assets"])),
        "/usr/lib/hyprwhspr-rs/share/assets"
    );
    assert_eq!(temp_dir_in("/home/u/.local/share/hyprwhspr-rs"), "/home/u/.local/share/hyprwhspr-rs/temp");
}

#[test]
fn probes_name_every_path_a_resolution_looks_at() {
    let config = vad_config("vad.bin", &["~/m"]);
    let probes = probe_paths(&config, Some("/backing"), Some("/appdir"), Some("/home/u"));
    let wanted = [
        "/home/u/m",
        "/usr/share/whisper/models",
        "/home/u/.local/share/hyprwhspr-rs/whisper.cpp/models",
        "/home/u/m/ggml-base.en.bin",
        "/usr/share/whisper/models/ggml-base.en.bin",
        "./ggml-base.en.bin",
        "vad.bin",
        "/backing/vad.bin",
        "/appdir/vad.bin",
        "/home/u/m/vad.bin",
        "/usr/share/whisper/models/vad.bin",
        "/usr/bin/whisper-cli",
        "/usr/bin/whisper",
        "/home/u/.local/share/hyprwhspr-rs/whisper.cpp/build/bin/main",
        "/usr/lib/hyprwhspr-rs/share/assets",
    ];
    for path in wanted {
        assert!(probes.contains(&path.to_string()), "{}", path);
    }
}

#[test]
fn a_record_of_the_probes_decides_like_the_full_record() {
    let config = vad_config("vad.bin", &["/m1", "/m2"]);
    let world = ["/m2", "/m2/ggml-base.en.bin", "/m2/vad.bin", "/unrelated", "/m1/vad.bin"];
    let full = present(&world);
    let mut probed = PathSet::new();
    for path in probe_paths(&config, Some("/b"), None, None) {
        if full.contains(&path) {
            probed.insert(path);
        }
    }
    assert_eq!(
        resolve_model_path(&config, None, &probed),
        resolve_model_path(&config, None, &full)
    );
    assert_eq!(resolve_model_path(&config, None, &probed), "/m2/ggml-base.en.bin");
    assert_eq!(
        resolve_vad_model_path(&config, Some("/b"), None, None, &probed),
        Some("/m2/vad.bin".to_string())
    );
}
