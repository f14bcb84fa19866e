//! The settings aggregate, its normal form and the migration of the flat
//! legacy layout.

use crate::defaults::{
    default_auto_copy_clipboard, default_primary_shortcut, default_shift_paste, default_volume,
    primary_shortcut_text,
};
use crate::number::{real_opt_same, same_real_opt, Real32};
use crate::overrides::WordOverrides;
use crate::schema::{
    clone_vad_opt, same_vad_opt, vad_opt_agrees, vad_opt_view, FastVadConfig, FastVadConfigView,
    GeminiConfigView, GroqConfigView, ParakeetConfigView, PasteHintsConfig, PasteHintsConfigView,
    ShortcutsConfig, ShortcutsConfigView, TranscriptionConfig, TranscriptionConfigView, VadConfig,
    VadConfigView, WhisperCppConfigView,
};
use crate::text::{
    clone_text_opt, clone_texts_opt, is_clean, lemma_trimmed_clean, same_text_opt, same_texts_opt,
    text_of, texts_opt_of, trim, trimmed,
};
use vstd::prelude::*;
use vstd::std_specs::cmp::PartialEqSpecImpl;

verus! {

/// Every setting of the daemon, together with the fields of the older flat
/// layout from which a migration fills the newer ones.
#[derive(Debug)]
pub struct Config {
    /// The single shortcut of the flat layout. After normalization it always
    /// repeats the press chord of `shortcuts`; no document spells it out.
    pub primary_shortcut: String,
    /// The press and hold chords.
    pub shortcuts: ShortcutsConfig,
    /// Spoken words and what is typed in their place.
    pub word_overrides: WordOverrides,
    /// Whether start and stop are announced by a sound.
    pub audio_feedback: bool,
    /// Volume of the start sound.
    pub start_sound_volume: Real32,
    /// Volume of the stop sound.
    pub stop_sound_volume: Real32,
    /// Sound file played at the start, in place of the built-in one.
    pub start_sound_path: Option<String>,
    /// Sound file played at the stop, in place of the built-in one.
    pub stop_sound_path: Option<String>,
    /// Whether a transcript is copied to the clipboard.
    pub auto_copy_clipboard: bool,
    /// Whether pasting uses the shifted paste chord.
    pub shift_paste: bool,
    /// Whether the paste chord is sent to the whole desktop.
    pub global_paste_shortcut: bool,
    /// Per-window paste hints.
    pub paste_hints: PasteHintsConfig,
    /// Index of the capture device; absent for the system default.
    pub audio_device: Option<usize>,
    /// The fast voice-activity detector.
    pub fast_vad: FastVadConfig,
    /// The transcription providers.
    pub transcription: TranscriptionConfig,
    /// Flat layout: model name. A migration source.
    pub legacy_model: Option<String>,
    /// Flat layout: worker threads. A migration source.
    pub legacy_threads: Option<usize>,
    /// Flat layout: layers offloaded to the GPU. A migration source.
    pub legacy_gpu_layers: Option<i32>,
    /// Flat layout: prompt. A migration source.
    pub legacy_whisper_prompt: Option<String>,
    /// Flat layout: model directories. A migration source.
    pub legacy_models_dirs: Option<Vec<String>>,
    /// Flat layout: silence threshold. A migration source.
    pub legacy_no_speech_threshold: Option<Real32>,
    /// Flat layout: whether older binary names are tried. A migration source.
    pub legacy_fallback_cli: Option<bool>,
    /// Flat layout: detector tuning. A migration source.
    pub legacy_vad: Option<VadConfig>,
}

/// What a [`Config`] holds, as mathematical values.
pub struct ConfigView {
    pub primary_shortcut: Seq<char>,
    pub shortcuts: ShortcutsConfigView,
    pub word_overrides: Map<Seq<char>, Seq<char>>,
    pub audio_feedback: bool,
    pub start_sound_volume: Real32,
    pub stop_sound_volume: Real32,
    pub start_sound_path: Option<Seq<char>>,
    pub stop_sound_path: Option<Seq<char>>,
    pub auto_copy_clipboard: bool,
    pub shift_paste: bool,
    pub global_paste_shortcut: bool,
    pub paste_hints: PasteHintsConfigView,
    pub audio_device: Option<usize>,
    pub fast_vad: FastVadConfigView,
    pub transcription: TranscriptionConfigView,
    pub legacy_model: Option<Seq<char>>,
    pub legacy_threads: Option<usize>,
    pub legacy_gpu_layers: Option<i32>,
    pub legacy_whisper_prompt: Option<Seq<char>>,
    pub legacy_models_dirs: Option<Seq<Seq<char>>>,
    pub legacy_no_speech_threshold: Option<Real32>,
    pub legacy_fallback_cli: Option<bool>,
    pub legacy_vad: Option<VadConfigView>,
}

impl View for Config {
    type V = ConfigView;

    open spec fn view(&self) -> ConfigView {
        ConfigView {
            primary_shortcut: self.primary_shortcut@,
            shortcuts: self.shortcuts@,
            word_overrides: self.word_overrides@,
            audio_feedback: self.audio_feedback,
            start_sound_volume: self.start_sound_volume,
            stop_sound_volume: self.stop_sound_volume,
            start_sound_path: text_of(self.start_sound_path),
            stop_sound_path: text_of(self.stop_sound_path),
            auto_copy_clipboard: self.auto_copy_clipboard,
            shift_paste: self.shift_paste,
            global_paste_shortcut: self.global_paste_shortcut,
            paste_hints: self.paste_hints@,
            audio_device: self.audio_device,
            fast_vad: self.fast_vad@,
            transcription: self.transcription@,
            legacy_model: text_of(self.legacy_model),
            legacy_threads: self.legacy_threads,
            legacy_gpu_layers: self.legacy_gpu_layers,
            legacy_whisper_prompt: text_of(self.legacy_whisper_prompt),
            legacy_models_dirs: texts_opt_of(self.legacy_models_dirs),
            legacy_no_speech_threshold: self.legacy_no_speech_threshold,
            legacy_fallback_cli: self.legacy_fallback_cli,
            legacy_vad: vad_opt_view(self.legacy_vad),
        }
    }
}

impl ConfigView {
    /// Whether two values are equal as settings: numbers compare by value,
    /// everything else by content.
    pub open spec fn agrees(self, other: ConfigView) -> bool {
        &&& self.primary_shortcut == other.primary_shortcut
        &&& self.shortcuts.agrees(other.shortcuts)
        &&& self.word_overrides == other.word_overrides
        &&& self.audio_feedback == other.audio_feedback
        &&& self.start_sound_volume.same(other.start_sound_volume)
        &&& self.stop_sound_volume.same(other.stop_sound_volume)
        &&& self.start_sound_path == other.start_sound_path
        &&& self.stop_sound_path == other.stop_sound_path
        &&& self.auto_copy_clipboard == other.auto_copy_clipboard
        &&& self.shift_paste == other.shift_paste
        &&& self.global_paste_shortcut == other.global_paste_shortcut
        &&& self.paste_hints.agrees(other.paste_hints)
        &&& self.audio_device == other.audio_device
        &&& self.fast_vad.agrees(other.fast_vad)
        &&& self.transcription.agrees(other.transcription)
        &&& self.legacy_model == other.legacy_model
        &&& self.legacy_threads == other.legacy_threads
        &&& self.legacy_gpu_layers == other.legacy_gpu_layers
        &&& self.legacy_whisper_prompt == other.legacy_whisper_prompt
        &&& self.legacy_models_dirs == other.legacy_models_dirs
        &&& real_opt_same(self.legacy_no_speech_threshold, other.legacy_no_speech_threshold)
        &&& self.legacy_fallback_cli == other.legacy_fallback_cli
        &&& vad_opt_agrees(self.legacy_vad, other.legacy_vad)
    }
}

impl Config {
    /// Whether two values are equal as settings.
    pub fn same_as(&self, other: &Config) -> (r: bool)
        ensures
            r == self@.agrees(other@),
    {
        self.primary_shortcut == other.primary_shortcut
            && self.shortcuts.same_as(&other.shortcuts)
            && self.word_overrides.same_as(&other.word_overrides)
            && self.audio_feedback == other.audio_feedback
            && self.start_sound_volume.same_as(other.start_sound_volume)
            && self.stop_sound_volume.same_as(other.stop_sound_volume)
            && same_text_opt(&self.start_sound_path, &other.start_sound_path)
            && same_text_opt(&self.stop_sound_path, &other.stop_sound_path)
            && self.auto_copy_clipboard == other.auto_copy_clipboard
            && self.shift_paste == other.shift_paste
            && self.global_paste_shortcut == other.global_paste_shortcut
            && self.paste_hints.same_as(&other.paste_hints)
            && self.audio_device == other.audio_device
            && self.fast_vad.same_as(&other.fast_vad)
            && self.transcription.same_as(&other.transcription)
            && same_text_opt(&self.legacy_model, &other.legacy_model)
            && self.legacy_threads == other.legacy_threads
            && self.legacy_gpu_layers == other.legacy_gpu_layers
            && same_text_opt(&self.legacy_whisper_prompt, &other.legacy_whisper_prompt)
            && same_texts_opt(&self.legacy_models_dirs, &other.legacy_models_dirs)
            && same_real_opt(self.legacy_no_speech_threshold, other.legacy_no_speech_threshold)
            && self.legacy_fallback_cli == other.legacy_fallback_cli
            && same_vad_opt(&self.legacy_vad, &other.legacy_vad)
    }
}

impl Clone for Config {
    fn clone(&self) -> (r: Config)
        ensures
            r@ == self@,
    {
        Config {
            primary_shortcut: self.primary_shortcut.clone(),
            shortcuts: self.shortcuts.clone(),
            word_overrides: self.word_overrides.clone(),
            audio_feedback: self.audio_feedback,
            start_sound_volume: self.start_sound_volume,
            stop_sound_volume: self.stop_sound_volume,
            start_sound_path: clone_text_opt(&self.start_sound_path),
            stop_sound_path: clone_text_opt(&self.stop_sound_path),
            auto_copy_clipboard: self.auto_copy_clipboard,
            shift_paste: self.shift_paste,
            global_paste_shortcut: self.global_paste_shortcut,
            paste_hints: self.paste_hints.clone(),
            audio_device: self.audio_device,
            fast_vad: self.fast_vad.clone(),
            transcription: self.transcription.clone(),
            legacy_model: clone_text_opt(&self.legacy_model),
            legacy_threads: self.legacy_threads,
            legacy_gpu_layers: self.legacy_gpu_layers,
            legacy_whisper_prompt: clone_text_opt(&self.legacy_whisper_prompt),
            legacy_models_dirs: clone_texts_opt(&self.legacy_models_dirs),
            legacy_no_speech_threshold: self.legacy_no_speech_threshold,
            legacy_fallback_cli: self.legacy_fallback_cli,
            legacy_vad: clone_vad_opt(&self.legacy_vad),
        }
    }
}

impl PartialEq for Config {
    fn eq(&self, other: &Config) -> (r: bool) {
        self.same_as(other)
    }
}

impl PartialEqSpecImpl for Config {
    open spec fn obeys_eq_spec() -> bool {
        true
    }

    open spec fn eq_spec(&self, other: &Config) -> bool {
        self@.agrees(other@)
    }
}

/// A shortcut as it is kept: trimmed, and absent when nothing is left.
pub open spec fn sanitized(s: Seq<char>) -> Option<Seq<char>> {
    if trimmed(s).len() == 0 {
        None
    } else {
        Some(trimmed(s))
    }
}

/// [`sanitized`], of a shortcut that may be absent already.
pub open spec fn sanitized_opt(o: Option<Seq<char>>) -> Option<Seq<char>> {
    match o {
        Some(s) => sanitized(s),
        None => None,
    }
}

/// The press chord that normalization settles on: the legacy shortcut
/// wherever it holds a value, else the configured press chord, else the
/// compiled-in default.
pub open spec fn resolved_press(legacy: Seq<char>, press: Option<Seq<char>>) -> Seq<char> {
    match sanitized(legacy) {
        Some(l) => l,
        None => match sanitized_opt(press) {
            Some(p) => p,
            None => primary_shortcut_text(),
        },
    }
}

impl ConfigView {
    /// The normal form: a clean hold chord, and one resolved press chord
    /// that the legacy shortcut repeats.
    pub open spec fn normalized(self) -> ConfigView {
        let press = resolved_press(self.primary_shortcut, self.shortcuts.press);
        ConfigView {
            primary_shortcut: press,
            shortcuts: ShortcutsConfigView {
                hold: sanitized_opt(self.shortcuts.hold),
                press: Some(press),
            },
            ..self
        }
    }

    /// Whether the shortcuts are in normal form.
    pub open spec fn is_normalized(self) -> bool {
        &&& sanitized(self.primary_shortcut) == Some(self.primary_shortcut)
        &&& self.shortcuts.press == Some(self.primary_shortcut)
        &&& sanitized_opt(self.shortcuts.hold) == self.shortcuts.hold
    }

    /// Whether every field of the flat legacy layout is empty.
    pub open spec fn is_migrated(self) -> bool {
        &&& self.legacy_model is None
        &&& self.legacy_threads is None
        &&& self.legacy_gpu_layers is None
        &&& self.legacy_whisper_prompt is None
        &&& self.legacy_models_dirs is None
        &&& self.legacy_no_speech_threshold is None
        &&& self.legacy_fallback_cli is None
        &&& self.legacy_vad is None
    }

    /// The local provider's settings after each legacy field that holds a
    /// value has replaced its counterpart.
    pub open spec fn migrated_whisper_cpp(self) -> WhisperCppConfigView {
        let w = self.transcription.whisper_cpp;
        WhisperCppConfigView {
            prompt: self.migrated_prompt(w.prompt),
            model: match self.legacy_model {
                Some(m) => m,
                None => w.model,
            },
            threads: match self.legacy_threads {
                Some(t) => t,
                None => w.threads,
            },
            gpu_layers: match self.legacy_gpu_layers {
                Some(g) => g,
                None => w.gpu_layers,
            },
            fallback_cli: match self.legacy_fallback_cli {
                Some(f) => f,
                None => w.fallback_cli,
            },
            no_speech_threshold: match self.legacy_no_speech_threshold {
                Some(t) => t,
                None => w.no_speech_threshold,
            },
            models_dirs: match self.legacy_models_dirs {
                Some(d) => d,
                None => w.models_dirs,
            },
            vad: match self.legacy_vad {
                Some(v) => v,
                None => w.vad,
            },
        }
    }

    /// A provider's prompt after migration: the legacy prompt where there
    /// is one, else `current`.
    pub open spec fn migrated_prompt(self, current: Seq<char>) -> Seq<char> {
        match self.legacy_whisper_prompt {
            Some(p) => p,
            None => current,
        }
    }

    /// The settings after migration: every legacy value moved to its place
    /// in the nested layout, the prompt to all four providers, and every
    /// legacy field emptied.
    pub open spec fn migrated(self) -> ConfigView {
        let t = self.transcription;
        ConfigView {
            transcription: TranscriptionConfigView {
                whisper_cpp: self.migrated_whisper_cpp(),
                groq: GroqConfigView { prompt: self.migrated_prompt(t.groq.prompt), ..t.groq },
                gemini: GeminiConfigView {
                    prompt: self.migrated_prompt(t.gemini.prompt),
                    ..t.gemini
                },
                parakeet: ParakeetConfigView {
                    prompt: self.migrated_prompt(t.parakeet.prompt),
                    ..t.parakeet
                },
                ..t
            },
            legacy_model: None,
            legacy_threads: None,
            legacy_gpu_layers: None,
            legacy_whisper_prompt: None,
            legacy_models_dirs: None,
            legacy_no_speech_threshold: None,
            legacy_fallback_cli: None,
            legacy_vad: None,
            ..self
        }
    }

    /// What a freshly decoded value goes through before it is used:
    /// migration, then normalization.
    pub open spec fn loaded(self) -> ConfigView {
        self.migrated().normalized()
    }

    /// The compiled-in settings.
    pub open spec fn initial() -> ConfigView {
        ConfigView {
            primary_shortcut: primary_shortcut_text(),
            shortcuts: ShortcutsConfigView::initial(),
            word_overrides: Map::empty(),
            audio_feedback: false,
            start_sound_volume: Real32 { bits: 0x3e99_999a },
            stop_sound_volume: Real32 { bits: 0x3e99_999a },
            start_sound_path: None,
            stop_sound_path: None,
            auto_copy_clipboard: true,
            shift_paste: true,
            global_paste_shortcut: false,
            paste_hints: PasteHintsConfigView::initial(),
            audio_device: None,
            fast_vad: FastVadConfigView::initial(),
            transcription: TranscriptionConfigView::initial(),
            legacy_model: None,
            legacy_threads: None,
            legacy_gpu_layers: None,
            legacy_whisper_prompt: None,
            legacy_models_dirs: None,
            legacy_no_speech_threshold: None,
            legacy_fallback_cli: None,
            legacy_vad: None,
        }
    }
}

/// A sanitized shortcut is not empty and is left as it is by sanitizing it
/// again.
pub proof fn lemma_sanitized_stable(s: Seq<char>)
    ensures
        sanitized(s) matches Some(t) ==> t.len() > 0 && is_clean(t) && sanitized(t) == Some(t),
        sanitized_opt(sanitized(s)) == sanitized(s),
{
    lemma_trimmed_clean(s);
}

/// The compiled-in shortcut is already in the form in which shortcuts are
/// kept.
pub proof fn lemma_default_shortcut_clean()
    ensures
        sanitized(primary_shortcut_text()) == Some(primary_shortcut_text()),
{
    let s = primary_shortcut_text();
    reveal_strlit("SUPER+ALT+R");
    assert(s.len() == 11);
    assert(s[0] == 'S');
    assert(s.last() == 'R');
    lemma_trimmed_clean(s);
}

/// The press chord that normalization settles on is in the form in which
/// shortcuts are kept.
pub proof fn lemma_resolved_press_clean(legacy: Seq<char>, press: Option<Seq<char>>)
    ensures
        sanitized(resolved_press(legacy, press)) == Some(resolved_press(legacy, press)),
        resolved_press(legacy, press).len() > 0,
{
    lemma_sanitized_stable(legacy);
    if press is Some {
        lemma_sanitized_stable(press->0);
    }
    lemma_default_shortcut_clean();
    lemma_sanitized_stable(primary_shortcut_text());
}

/// After normalization the legacy shortcut equals the press chord, the
/// press chord is present and not empty, and the shortcuts are in normal
/// form.
pub proof fn lemma_normalized_consistent(c: ConfigView)
    ensures
        c.normalized().shortcuts.press == Some(c.normalized().primary_shortcut),
        c.normalized().primary_shortcut.len() > 0,
        c.normalized().is_normalized(),
{
    lemma_resolved_press_clean(c.primary_shortcut, c.shortcuts.press);
    if c.shortcuts.hold is Some {
        lemma_sanitized_stable(c.shortcuts.hold->0);
    }
}

/// Settings in normal form are left as they are by normalization.
pub proof fn lemma_normalized_fixed(c: ConfigView)
    requires
        c.is_normalized(),
    ensures
        c.normalized() == c,
{
}

/// Normalizing twice gives what normalizing once gives.
pub proof fn lemma_normalize_idempotent(c: ConfigView)
    ensures
        c.normalized().normalized() == c.normalized(),
{
    lemma_normalized_consistent(c);
    lemma_normalized_fixed(c.normalized());
}

/// Migration empties every legacy field, so migrating twice gives what
/// migrating once gives.
pub proof fn lemma_migrate_idempotent(c: ConfigView)
    ensures
        c.migrated().is_migrated(),
        c.migrated().migrated() == c.migrated(),
{
}

/// Settings without legacy values are left as they are by migration.
pub proof fn lemma_migrated_fixed(c: ConfigView)
    requires
        c.is_migrated(),
    ensures
        c.migrated() == c,
{
}

/// A legacy prompt reaches all four providers, and a legacy model name
/// reaches the local provider.
pub proof fn lemma_migrate_fans_out(c: ConfigView)
    ensures
        c.legacy_whisper_prompt matches Some(p) ==> {
            let t = c.migrated().transcription;
            t.whisper_cpp.prompt == p && t.groq.prompt == p && t.gemini.prompt == p
                && t.parakeet.prompt == p
        },
        c.legacy_model matches Some(m) ==> c.migrated().transcription.whisper_cpp.model == m,
{
}

/// Wherever the legacy shortcut holds a value, that value becomes the
/// press chord, whatever the press chord was.
pub proof fn lemma_legacy_shortcut_wins(c: ConfigView)
    requires
        sanitized(c.primary_shortcut) is Some,
    ensures
        c.normalized().shortcuts.press == sanitized(c.primary_shortcut),
{
}

/// A press chord survives normalization where the legacy shortcut is
/// blank or says the same, and normalization then changes nothing but
/// the shortcuts.
pub proof fn lemma_press_survives(c: ConfigView, chord: Seq<char>)
    requires
        sanitized_opt(c.shortcuts.press) == Some(chord),
        sanitized(c.primary_shortcut) is None || sanitized(c.primary_shortcut) == Some(chord),
    ensures
        c.normalized() == (ConfigView {
            primary_shortcut: chord,
            shortcuts: ShortcutsConfigView {
                hold: sanitized_opt(c.shortcuts.hold),
                press: Some(chord),
            },
            ..c
        }),
{
}

/// Settings that are in normal form and hold no legacy value are what
/// loading them again gives.
pub proof fn lemma_held_settings_reload(c: ConfigView)
    requires
        c.is_normalized(),
        c.is_migrated(),
    ensures
        c.loaded() == c,
{
    lemma_migrated_fixed(c);
    lemma_normalized_fixed(c);
}

/// Neither step disturbs the other: normalization keeps the legacy fields
/// empty, and migration keeps the shortcuts in normal form.
pub proof fn lemma_loaded_is_stable(c: ConfigView)
    ensures
        c.loaded().is_migrated(),
        c.loaded().is_normalized(),
        c.loaded().loaded() == c.loaded(),
{
    lemma_normalized_consistent(c.migrated());
    lemma_migrated_fixed(c.loaded());
    lemma_normalized_fixed(c.loaded());
}

/// The compiled-in settings are what loading them again gives: they hold no
/// legacy value and their shortcuts are in normal form.
pub proof fn lemma_initial_is_loaded()
    ensures
        ConfigView::initial().is_migrated(),
        ConfigView::initial().is_normalized(),
        ConfigView::initial().loaded() == ConfigView::initial(),
{
    lemma_default_shortcut_clean();
    let c = ConfigView::initial();
    lemma_migrated_fixed(c);
    lemma_normalized_fixed(c);
}

/// Puts `value` into `slot` if there is one, and leaves `slot` as it is
/// otherwise.
pub fn replace_if_some<T>(slot: &mut T, value: Option<T>)
    ensures
        *final(slot) == match value {
            Some(v) => v,
            None => *old(slot),
        },
{
    if let Some(v) = value {
        *slot = v;
    }
}

impl Config {
    /// Trims a shortcut; `None` when nothing but whitespace was there.
    pub fn sanitize_shortcut(value: &str) -> (r: Option<String>)
        ensures
            text_of(r) == sanitized(value@),
    {
        let kept = trim(value);
        if kept.unicode_len() == 0 {
            None
        } else {
            Some(kept.to_owned())
        }
    }

    /// Brings the shortcuts into normal form. The hold chord is trimmed and
    /// dropped when empty. The press chord becomes the trimmed legacy
    /// shortcut if that is not empty, else its own trimmed value if that is
    /// not empty, else the compiled-in default; the legacy shortcut is set
    /// to the same value.
    pub fn normalize_shortcuts(&mut self)
        ensures
            final(self)@ == old(self)@.normalized(),
            final(self)@.is_normalized(),
            final(self)@.shortcuts.press == Some(final(self)@.primary_shortcut),
    {
        proof {
            lemma_normalized_consistent(self@);
        }
        let legacy = Config::sanitize_shortcut(self.primary_shortcut.as_str());
        let press = match &self.shortcuts.press {
            Some(value) => Config::sanitize_shortcut(value.as_str()),
            None => None,
        };
        let hold = match &self.shortcuts.hold {
            Some(value) => Config::sanitize_shortcut(value.as_str()),
            None => None,
        };
        let resolved = match legacy {
            Some(l) => l,
            None => match press {
                Some(p) => p,
                None => default_primary_shortcut(),
            },
        };
        self.shortcuts.hold = hold;
        self.shortcuts.press = Some(resolved.clone());
        self.primary_shortcut = resolved;
    }

    /// Moves every value of the flat legacy layout to its place in the
    /// nested one, the prompt to all four providers, and empties the
    /// legacy fields.
    pub fn migrate_legacy_transcription_settings(&mut self)
        ensures
            final(self)@ == old(self)@.migrated(),
            final(self)@.is_migrated(),
    {
        let prompt = self.legacy_whisper_prompt.take();
        let whisper = &mut self.transcription.whisper_cpp;
        replace_if_some(&mut whisper.model, self.legacy_model.take());
        replace_if_some(&mut whisper.threads, self.legacy_threads.take());
        replace_if_some(&mut whisper.gpu_layers, self.legacy_gpu_layers.take());
        replace_if_some(&mut whisper.prompt, clone_text_opt(&prompt));
        replace_if_some(&mut whisper.models_dirs, self.legacy_models_dirs.take());
        replace_if_some(&mut whisper.no_speech_threshold, self.legacy_no_speech_threshold.take());
        replace_if_some(&mut whisper.fallback_cli, self.legacy_fallback_cli.take());
        replace_if_some(&mut whisper.vad, self.legacy_vad.take());
        replace_if_some(&mut self.transcription.groq.prompt, clone_text_opt(&prompt));
        replace_if_some(&mut self.transcription.gemini.prompt, clone_text_opt(&prompt));
        replace_if_some(&mut self.transcription.parakeet.prompt, prompt);
    }

    /// The press chord, if one is set.
    pub fn press_shortcut(&self) -> (r: Option<&str>)
        ensures
            match r {
                Some(s) => self@.shortcuts.press == Some(s@),
                None => self@.shortcuts.press is None,
            },
    {
        match &self.shortcuts.press {
            Some(s) => Some(s.as_str()),
            None => None,
        }
    }

    /// The hold chord, if one is set.
    pub fn hold_shortcut(&self) -> (r: Option<&str>)
        ensures
            match r {
                Some(s) => self@.shortcuts.hold == Some(s@),
                None => self@.shortcuts.hold is None,
            },
    {
        match &self.shortcuts.hold {
            Some(s) => Some(s.as_str()),
            None => None,
        }
    }
}

impl Default for Config {
    /// The compiled-in settings, in normal form.
    fn default() -> (r: Config)
        ensures
            r@ == ConfigView::initial(),
            r@.is_normalized(),
            r@.is_migrated(),
    {
        let mut config = Config {
            primary_shortcut: default_primary_shortcut(),
            shortcuts: ShortcutsConfig::default(),
            word_overrides: WordOverrides::new(),
            audio_feedback: false,
            start_sound_volume: default_volume(),
            stop_sound_volume: default_volume(),
            start_sound_path: None,
            stop_sound_path: None,
            auto_copy_clipboard: default_auto_copy_clipboard(),
            shift_paste: default_shift_paste(),
            global_paste_shortcut: false,
            paste_hints: PasteHintsConfig::default(),
            audio_device: None,
            fast_vad: FastVadConfig::default(),
            transcription: TranscriptionConfig::default(),
            legacy_model: None,
            legacy_threads: None,
            legacy_gpu_layers: None,
            legacy_whisper_prompt: None,
            legacy_models_dirs: None,
            legacy_no_speech_threshold: None,
            legacy_fallback_cli: None,
            legacy_vad: None,
        };
        proof {
            lemma_initial_is_loaded();
            assert(config@ == ConfigView::initial());
        }
        config.normalize_shortcuts();
        config
    }
}

} // verus!
