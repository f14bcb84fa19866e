//! The store, the change bus and the watcher's decisions.
//!
//! The store holds the one authoritative value of the settings. Every
//! replacement of that value is published by raising a version number;
//! a subscriber that finds a version it has not seen reads the value that
//! is authoritative at that moment. The watcher compares the state of the
//! backing file between ticks and asks for a reload when it differs.

use crate::config::{Config, ConfigView, lemma_loaded_is_stable, lemma_normalized_consistent};
use crate::error::ConfigError;
use crate::paths::{join_path, joined, text_of_str, PathSet};
use crate::resolver::{
    assets_dir, binary_candidates, kept, kept_once, model_path, resolve_assets_dir,
    resolve_model_path, resolve_vad_model_path, search_candidates, temp_dir_in, vad_model_path,
    whisper_binary_candidates,
};
use crate::text::{text_of, texts_of};
use vstd::prelude::*;

verus! {

/// Milliseconds between two looks of the watcher at the backing file.
pub const POLL_INTERVAL_MS: u64 = 500;

/// Name of the backing file.
pub open spec fn config_file_name() -> Seq<char> {
    "config.jsonc"@
}

/// Name of the backing file of earlier releases, in plain JSON.
pub open spec fn legacy_file_name() -> Seq<char> {
    "config.json"@
}

/// Path of the backing file in a configuration directory.
pub fn config_file_in(config_dir: &str) -> (r: String)
    ensures
        r@ == joined(config_dir@, config_file_name()),
{
    join_path(config_dir, "config.jsonc")
}

/// Path of the earlier backing file in a configuration directory.
pub fn legacy_file_in(config_dir: &str) -> (r: String)
    ensures
        r@ == joined(config_dir@, legacy_file_name()),
{
    join_path(config_dir, "config.json")
}

/// Where the settings come from at startup.
#[derive(Clone, Copy, Debug, PartialEq, Eq, Structural)]
pub enum LoadPlan {
    /// The backing file exists: read it.
    ReadCurrent,
    /// Only the earlier file exists: read it, and write what it holds to
    /// the backing file. The earlier file stays as it is.
    MigrateLegacy,
    /// Neither exists: take the compiled-in settings and write them to the
    /// backing file.
    CreateDefault,
}

/// The plan for a configuration directory in which the files named in
/// `present` exist.
pub open spec fn load_plan_for(config_dir: Seq<char>, present: Set<Seq<char>>) -> LoadPlan {
    if present.contains(joined(config_dir, config_file_name())) {
        LoadPlan::ReadCurrent
    } else if present.contains(joined(config_dir, legacy_file_name())) {
        LoadPlan::MigrateLegacy
    } else {
        LoadPlan::CreateDefault
    }
}

impl LoadPlan {
    /// Whether the plan ends by writing the backing file.
    pub open spec fn writes_backing_file(self) -> bool {
        self != LoadPlan::ReadCurrent
    }

    /// Decides where the settings come from.
    pub fn decide(config_dir: &str, present: &PathSet) -> (plan: LoadPlan)
        ensures
            plan == load_plan_for(config_dir@, present@),
    {
        if present.contains(&config_file_in(config_dir)) {
            LoadPlan::ReadCurrent
        } else if present.contains(&legacy_file_in(config_dir)) {
            LoadPlan::MigrateLegacy
        } else {
            LoadPlan::CreateDefault
        }
    }

    /// The file to read, if the plan reads one.
    pub fn source(&self, config_dir: &str) -> (r: Option<String>)
        ensures
            text_of(r) == match *self {
                LoadPlan::ReadCurrent => Some(joined(config_dir@, config_file_name())),
                LoadPlan::MigrateLegacy => Some(joined(config_dir@, legacy_file_name())),
                LoadPlan::CreateDefault => None,
            },
    {
        match self {
            LoadPlan::ReadCurrent => Some(config_file_in(config_dir)),
            LoadPlan::MigrateLegacy => Some(legacy_file_in(config_dir)),
            LoadPlan::CreateDefault => None,
        }
    }

    /// Whether the plan ends by writing the backing file.
    pub fn writes(&self) -> (b: bool)
        ensures
            b == self.writes_backing_file(),
    {
        match self {
            LoadPlan::ReadCurrent => false,
            _ => true,
        }
    }
}

/// What the watcher compares between ticks: when the backing file was
/// last modified, in nanoseconds since the epoch, and how long it is.
#[derive(Clone, Copy, Debug, PartialEq, Eq, Structural)]
pub struct FileState {
    pub modified_nanos: i128,
    pub len: u64,
}

/// The watcher's memory: the state of the backing file at the last tick,
/// or none while the file could not be examined.
#[derive(Clone, Copy, Debug, PartialEq, Eq, Structural)]
pub struct Watcher {
    pub last_state: Option<FileState>,
}

impl Watcher {
    /// A watcher that has seen the backing file in state `initial`.
    pub fn new(initial: Option<FileState>) -> (w: Watcher)
        ensures
            w.last_state == initial,
    {
        Watcher { last_state: initial }
    }

    /// The watcher after a tick that sees the file in state `current`, and
    /// whether that tick asks for a reload: it does exactly when the state
    /// differs from the one remembered.
    pub open spec fn ticked(self, current: Option<FileState>) -> (Watcher, bool) {
        (Watcher { last_state: current }, current != self.last_state)
    }

    /// One tick. Returns whether the backing file has to be read again;
    /// the state seen now is remembered either way.
    pub fn tick(&mut self, current: Option<FileState>) -> (reload: bool)
        ensures
            (*final(self), reload) == old(self).ticked(current),
    {
        let same = match (self.last_state, current) {
            (Some(a), Some(b)) => a.modified_nanos == b.modified_nanos && a.len == b.len,
            (None, None) => true,
            _ => false,
        };
        self.last_state = current;
        !same
    }
}

/// A tick on a file in the state that the last tick saw asks for nothing,
/// however many such ticks follow one another.
pub proof fn lemma_quiet_file_is_left_alone(w: Watcher, seen: Option<FileState>)
    ensures
        !w.ticked(seen).0.ticked(seen).1,
        w.ticked(seen).0.ticked(seen).0 == w.ticked(seen).0,
{
}

/// A tick on a file whose modification time or length differs from what
/// the last tick saw asks for a reload.
pub proof fn lemma_changed_file_is_reloaded(w: Watcher, before: FileState, now: FileState)
    requires
        w.last_state == Some(before),
        before.modified_nanos != now.modified_nanos || before.len != now.len,
    ensures
        w.ticked(Some(now)).1,
{
}

/// What a look at freshly read settings led to.
#[derive(Clone, Copy, Debug, PartialEq, Eq, Structural)]
pub enum ReloadOutcome {
    /// The settings differed from the held ones, replaced them and were
    /// published.
    Applied,
    /// The settings equal the held ones: nothing was replaced or
    /// published.
    Unchanged,
    /// The file could not be read or decoded: the held settings stay.
    Rejected(ConfigError),
}

/// The version that follows `v`.
pub open spec fn next_version(v: u64) -> u64 {
    if v == u64::MAX {
        0
    } else {
        (v + 1) as u64
    }
}

/// The store of the one authoritative value, with the version under which
/// it was last published.
#[derive(Debug)]
pub struct ConfigManager {
    config: Config,
    config_dir: String,
    version: u64,
    watcher_active: bool,
}

/// What a [`ConfigManager`] holds, as mathematical values.
pub struct ConfigManagerView {
    /// The authoritative settings.
    pub config: ConfigView,
    /// The directory of the backing file.
    pub config_dir: Seq<char>,
    /// How often the settings were published, modulo 2^64.
    pub version: u64,
    /// Whether the watcher was started.
    pub watcher_active: bool,
}

impl View for ConfigManager {
    type V = ConfigManagerView;

    closed spec fn view(&self) -> ConfigManagerView {
        ConfigManagerView {
            config: self.config@,
            config_dir: self.config_dir@,
            version: self.version,
            watcher_active: self.watcher_active,
        }
    }
}

impl ConfigManagerView {
    /// Path of the backing file.
    pub open spec fn config_path(self) -> Seq<char> {
        joined(self.config_dir, config_file_name())
    }

    /// The state after `config` has replaced the held settings and was
    /// published.
    pub open spec fn replaced_by(self, config: ConfigView) -> ConfigManagerView {
        ConfigManagerView { config, version: next_version(self.version), ..self }
    }

    /// The state after a save of `new`: if its normalized form reached the
    /// backing file, that form is held and published; if not, nothing
    /// changes.
    pub open spec fn after_save(
        self,
        new: ConfigView,
        persisted: Result<(), ConfigError>,
    ) -> ConfigManagerView {
        if persisted is Ok {
            self.replaced_by(new.normalized())
        } else {
            self
        }
    }

    /// The state after a reload, and what the reload led to. Decoded
    /// settings are migrated and normalized; they replace the held ones
    /// and are published if they differ from them. An error changes
    /// nothing.
    pub open spec fn after_reload(self, decoded: Result<ConfigView, ConfigError>) -> (
        ConfigManagerView,
        ReloadOutcome,
    ) {
        match decoded {
            Ok(c) => if c.loaded().agrees(self.config) {
                (self, ReloadOutcome::Unchanged)
            } else {
                (self.replaced_by(c.loaded()), ReloadOutcome::Applied)
            },
            Err(e) => (self, ReloadOutcome::Rejected(e)),
        }
    }
}

/// What was decoded, or the error in its place, as mathematical values.
pub open spec fn decoded_view(decoded: Result<Config, ConfigError>) -> Result<
    ConfigView,
    ConfigError,
> {
    match decoded {
        Ok(c) => Ok(c@),
        Err(e) => Err(e),
    }
}

/// Whatever is saved or reloaded, the held settings stay in normal form:
/// the legacy shortcut repeats the press chord.
pub proof fn lemma_store_keeps_normal_form(
    s: ConfigManagerView,
    new: ConfigView,
    persisted: Result<(), ConfigError>,
    decoded: Result<ConfigView, ConfigError>,
)
    requires
        s.config.is_normalized(),
    ensures
        s.after_save(new, persisted).config.is_normalized(),
        s.after_reload(decoded).0.config.is_normalized(),
{
    lemma_normalized_consistent(new);
    if decoded is Ok {
        lemma_loaded_is_stable(decoded->Ok_0);
    }
}

/// The store holds what was saved or reloaded last, whole: after a save
/// that was persisted, the normalized settings of that save; after a
/// reload that was applied, the loaded settings of that reload; and after
/// anything else, what it held before.
pub proof fn lemma_store_holds_one_value(
    s: ConfigManagerView,
    new: ConfigView,
    persisted: Result<(), ConfigError>,
    decoded: Result<ConfigView, ConfigError>,
)
    ensures
        s.after_save(new, persisted).config == new.normalized() || s.after_save(
            new,
            persisted,
        ) == s,
        persisted is Err ==> s.after_save(new, persisted) == s,
        s.after_reload(decoded).1 == ReloadOutcome::Applied ==> decoded is Ok && s.after_reload(
            decoded,
        ).0.config == decoded->Ok_0.loaded(),
        s.after_reload(decoded).1 != ReloadOutcome::Applied ==> s.after_reload(decoded).0 == s,
{
}

/// A reload of settings that were applied a moment ago publishes nothing
/// more, provided that they hold no number that differs from itself.
pub proof fn lemma_repeated_reload_is_quiet(s: ConfigManagerView, c: ConfigView)
    requires
        c.loaded().agrees(c.loaded()),
    ensures
        ({
            let once = s.after_reload(Ok(c)).0;
            once.after_reload(Ok(c)) == (once, ReloadOutcome::Unchanged)
        }),
{
}

/// A subscriber's place on the change bus: the version it saw last.
#[derive(Clone, Copy, Debug, PartialEq, Eq, Structural)]
pub struct Subscription {
    pub seen: u64,
}

impl ConfigManager {
    #[verifier::type_invariant]
    spec fn well_formed(&self) -> bool {
        self.config@.is_normalized()
    }

    /// Sets the store up at startup. `decoded` is what the file of the
    /// load plan was decoded to, or none where the plan reads no file; it
    /// is migrated and normalized, and the compiled-in settings stand in
    /// where there is none.
    pub fn load(config_dir: &str, decoded: Option<Config>) -> (r: ConfigManager)
        ensures
            r@.config == match decoded {
                Some(c) => c@.loaded(),
                None => ConfigView::initial(),
            },
            r@.config_dir == config_dir@,
            r@.version == 0,
            !r@.watcher_active,
            r@.config.is_normalized(),
            r@.config.is_migrated(),
    {
        let config = match decoded {
            Some(c) => ConfigManager::parse_config(c),
            None => Config::default(),
        };
        ConfigManager {
            config,
            config_dir: config_dir.to_owned(),
            version: 0,
            watcher_active: false,
        }
    }

    /// What a decoded document goes through before it is used: migration
    /// of the flat legacy layout, then normalization of the shortcuts.
    pub fn parse_config(decoded: Config) -> (r: Config)
        ensures
            r@ == decoded@.loaded(),
            r@.is_normalized(),
            r@.is_migrated(),
    {
        proof {
            lemma_loaded_is_stable(decoded@);
        }
        let mut config = decoded;
        config.migrate_legacy_transcription_settings();
        config.normalize_shortcuts();
        config
    }

    /// Path of the backing file.
    pub fn config_path(&self) -> (r: String)
        ensures
            r@ == self@.config_path(),
    {
        config_file_in(self.config_dir.as_str())
    }

    /// Marks the watcher as started. Returns whether the caller is the
    /// one to start it, which is the case for the first call only.
    pub fn start_watching(&mut self) -> (start: bool)
        ensures
            start == !old(self)@.watcher_active,
            final(self)@ == (ConfigManagerView { watcher_active: true, ..old(self)@ }),
            final(self)@.config.is_normalized(),
    {
        proof {
            use_type_invariant(&*self);
        }
        let was_active = self.watcher_active;
        self.watcher_active = true;
        !was_active
    }

    /// A place on the change bus, together with the settings that are
    /// authoritative now.
    pub fn subscribe(&self) -> (r: (Subscription, Config))
        ensures
            r.0.seen == self@.version,
            r.1@ == self@.config,
    {
        (Subscription { seen: self.version }, self.config.clone())
    }

    /// An independent copy of the authoritative settings.
    pub fn get(&self) -> (r: Config)
        ensures
            r@ == self@.config,
            r@.is_normalized(),
    {
        proof {
            use_type_invariant(self);
        }
        self.config.clone()
    }

    /// The version under which the settings were last published.
    pub fn version(&self) -> (v: u64)
        ensures
            v == self@.version,
    {
        self.version
    }

    /// The settings in the form in which a save persists and holds them:
    /// normalized.
    pub fn prepare_save(new: &Config) -> (r: Config)
        ensures
            r@ == new@.normalized(),
            r@.is_normalized(),
    {
        let mut config = new.clone();
        config.normalize_shortcuts();
        config
    }

    /// Completes a save of `new`, of which `persisted` tells whether its
    /// normalized form reached the backing file. If it did, that form
    /// replaces the held settings and is published. If it did not, the
    /// error is handed back and nothing changes.
    pub fn save(&mut self, new: Config, persisted: Result<(), ConfigError>) -> (r: Result<
        (),
        ConfigError,
    >)
        ensures
            r == persisted,
            final(self)@ == old(self)@.after_save(new@, persisted),
            final(self)@.config.is_normalized(),
    {
        proof {
            use_type_invariant(&*self);
        }
        if persisted.is_ok() {
            self.config = ConfigManager::prepare_save(&new);
            self.version = if self.version == u64::MAX {
                0
            } else {
                self.version + 1
            };
        }
        persisted
    }

    /// Takes in what a reload of the backing file gave. Decoded settings
    /// are migrated and normalized; if they then differ from the held
    /// ones they replace them and are published, else nothing happens.
    /// An error leaves the held settings as they are.
    pub fn apply_reload(&mut self, decoded: Result<Config, ConfigError>) -> (r: ReloadOutcome)
        ensures
            (final(self)@, r) == old(self)@.after_reload(decoded_view(decoded)),
            final(self)@.config.is_normalized(),
    {
        proof {
            use_type_invariant(&*self);
        }
        match decoded {
            Ok(c) => {
                let fresh = ConfigManager::parse_config(c);
                if fresh.same_as(&self.config) {
                    ReloadOutcome::Unchanged
                } else {
                    self.config = fresh;
                    self.version = if self.version == u64::MAX {
                        0
                    } else {
                        self.version + 1
                    };
                    ReloadOutcome::Applied
                }
            },
            Err(e) => ReloadOutcome::Rejected(e),
        }
    }
}

impl Subscription {
    /// The settings, if they were published since this subscriber looked
    /// last. However many publications were missed, the one value handed
    /// out is the one that is authoritative now.
    pub fn poll(&mut self, manager: &ConfigManager) -> (r: Option<Config>)
        ensures
            final(self).seen == manager@.version,
            match r {
                Some(c) => old(self).seen != manager@.version && c@ == manager@.config,
                None => old(self).seen == manager@.version,
            },
    {
        if self.seen != manager.version() {
            self.seen = manager.version();
            Some(manager.get())
        } else {
            None
        }
    }
}

impl ConfigManager {
    /// The path of the transcription model that the held settings name.
    pub fn get_model_path(&self, home: Option<&str>, present: &PathSet) -> (r: String)
        ensures
            r@ == model_path(
                kept(
                    search_candidates(
                        self@.config.transcription.whisper_cpp.models_dirs,
                        text_of_str(home),
                    ),
                    present@,
                ),
                self@.config.transcription.whisper_cpp.model,
                present@,
            ),
    {
        resolve_model_path(&self.config, home, present)
    }

    /// The path of the voice-activity-detection model that `config`
    /// names, looked for beside the backing file first.
    pub fn get_vad_model_path(
        &self,
        config: &Config,
        app_config_dir: Option<&str>,
        home: Option<&str>,
        present: &PathSet,
    ) -> (r: Option<String>)
        ensures
            text_of(r) == vad_model_path(
                config@.transcription.whisper_cpp.vad.enabled,
                config@.transcription.whisper_cpp.vad.model,
                Some(self@.config_dir),
                text_of_str(app_config_dir),
                kept(
                    search_candidates(
                        config@.transcription.whisper_cpp.models_dirs,
                        text_of_str(home),
                    ),
                    present@,
                ),
                present@,
            ),
    {
        resolve_vad_model_path(
            config,
            Some(self.config_dir.as_str()),
            app_config_dir,
            home,
            present,
        )
    }

    /// The whisper.cpp binaries that exist, most preferred first and each
    /// once; with `include_fallbacks`, those under older names as well.
    pub fn get_whisper_binary_candidates(
        &self,
        include_fallbacks: bool,
        home: &str,
        present: &PathSet,
    ) -> (r: Vec<String>)
        ensures
            texts_of(r@) == kept_once(binary_candidates(home@, include_fallbacks), present@),
            texts_of(r@).no_duplicates(),
    {
        whisper_binary_candidates(home, include_fallbacks, present)
    }

    /// The scratch directory, below the per-user data directory.
    pub fn get_temp_dir(&self, data_dir: &str) -> (r: String)
        ensures
            r@ == joined(data_dir@, "temp"@),
    {
        temp_dir_in(data_dir)
    }

    /// The assets directory: the installed one if it exists, else
    /// `assets` below the working directory.
    pub fn get_assets_dir(&self, present: &PathSet) -> (r: String)
        ensures
            r@ == assets_dir(present@),
    {
        resolve_assets_dir(present)
    }
}

} // verus!
