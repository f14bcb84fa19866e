//! The settings groups: shortcuts, paste hints, voice-activity detection
//! and the transcription providers.

use crate::defaults::{
    default_fast_vad_min_speech_ms, default_fast_vad_post_roll_ms, default_fast_vad_pre_roll_ms,
    default_fast_vad_silence_timeout_ms, default_fast_vad_volatility_decrease_threshold,
    default_fast_vad_volatility_increase_threshold, default_fast_vad_volatility_window,
    default_gemini_endpoint, default_gemini_max_output_tokens, default_gemini_model,
    default_gemini_temperature, default_gpu_layers, default_groq_endpoint, default_groq_model,
    default_model, default_no_speech_threshold, default_parakeet_model_dir,
    default_primary_shortcut, default_threads, default_transcription_max_retries,
    default_transcription_request_timeout_secs, default_vad_max_speech_s,
    default_vad_min_silence_ms, default_vad_min_speech_ms, default_vad_model,
    default_vad_samples_overlap, default_vad_speech_pad_ms, default_vad_threshold,
    default_whisper_prompt, gemini_endpoint_text, gemini_model_text, groq_endpoint_text,
    groq_model_text, model_text, parakeet_model_dir_text, primary_shortcut_text, vad_model_text,
    whisper_prompt_text,
};
use crate::number::{Real32, INFINITY_BITS};
use crate::text::{
    clone_text_opt, clone_texts, no_texts, same_text_opt, same_texts, text_of, texts_of,
};
use vstd::prelude::*;
use vstd::std_specs::cmp::PartialEqSpecImpl;

verus! {

/// The key chords that trigger dictation.
#[derive(Debug)]
pub struct ShortcutsConfig {
    /// Chord that records while it is held down.
    pub hold: Option<String>,
    /// Chord that starts recording on one press and stops it on the next.
    pub press: Option<String>,
}

/// What a [`ShortcutsConfig`] holds, as mathematical values.
pub struct ShortcutsConfigView {
    pub hold: Option<Seq<char>>,
    pub press: Option<Seq<char>>,
}

impl View for ShortcutsConfig {
    type V = ShortcutsConfigView;

    open spec fn view(&self) -> ShortcutsConfigView {
        ShortcutsConfigView {
            hold: text_of(self.hold),
            press: text_of(self.press),
        }
    }
}

impl ShortcutsConfigView {
    /// The compiled-in value.
    pub open spec fn initial() -> ShortcutsConfigView {
        ShortcutsConfigView {
            hold: None,
            press: Some(primary_shortcut_text()),
        }
    }

    /// Whether two values are equal as settings: numbers compare by value,
    /// everything else by content.
    pub open spec fn agrees(self, other: ShortcutsConfigView) -> bool {
        &&& self.hold == other.hold
        &&& self.press == other.press
    }
}

impl ShortcutsConfig {
    /// Whether two values are equal as settings.
    pub fn same_as(&self, other: &ShortcutsConfig) -> (r: bool)
        ensures
            r == self@.agrees(other@),
    {
        same_text_opt(&self.hold, &other.hold)
            && same_text_opt(&self.press, &other.press)
    }
}

impl Clone for ShortcutsConfig {
    fn clone(&self) -> (r: ShortcutsConfig)
        ensures
            r@ == self@,
    {
        ShortcutsConfig {
            hold: clone_text_opt(&self.hold),
            press: clone_text_opt(&self.press),
        }
    }
}

impl PartialEq for ShortcutsConfig {
    fn eq(&self, other: &ShortcutsConfig) -> (r: bool) {
        self.same_as(other)
    }
}

impl PartialEqSpecImpl for ShortcutsConfig {
    open spec fn obeys_eq_spec() -> bool {
        true
    }

    open spec fn eq_spec(&self, other: &ShortcutsConfig) -> bool {
        self@.agrees(other@)
    }
}

impl Default for ShortcutsConfig {
    fn default() -> (r: ShortcutsConfig)
        ensures
            r@ == ShortcutsConfigView::initial(),
    {
        ShortcutsConfig {
            hold: None,
            press: Some(default_primary_shortcut()),
        }
    }
}

/// Hints on how a transcript is pasted into particular windows.
#[derive(Debug)]
pub struct PasteHintsConfig {
    /// Window classes that want the shifted paste chord.
    pub shift: Vec<String>,
}

/// What a [`PasteHintsConfig`] holds, as mathematical values.
pub struct PasteHintsConfigView {
    pub shift: Seq<Seq<char>>,
}

impl View for PasteHintsConfig {
    type V = PasteHintsConfigView;

    open spec fn view(&self) -> PasteHintsConfigView {
        PasteHintsConfigView {
            shift: texts_of(self.shift@),
        }
    }
}

impl PasteHintsConfigView {
    /// The compiled-in value.
    pub open spec fn initial() -> PasteHintsConfigView {
        PasteHintsConfigView {
            shift: Seq::empty(),
        }
    }

    /// Whether two values are equal as settings: numbers compare by value,
    /// everything else by content.
    pub open spec fn agrees(self, other: PasteHintsConfigView) -> bool {
        &&& self.shift == other.shift
    }
}

impl PasteHintsConfig {
    /// Whether two values are equal as settings.
    pub fn same_as(&self, other: &PasteHintsConfig) -> (r: bool)
        ensures
            r == self@.agrees(other@),
    {
        same_texts(&self.shift, &other.shift)
    }
}

impl Clone for PasteHintsConfig {
    fn clone(&self) -> (r: PasteHintsConfig)
        ensures
            r@ == self@,
    {
        PasteHintsConfig {
            shift: clone_texts(&self.shift),
        }
    }
}

impl PartialEq for PasteHintsConfig {
    fn eq(&self, other: &PasteHintsConfig) -> (r: bool) {
        self.same_as(other)
    }
}

impl PartialEqSpecImpl for PasteHintsConfig {
    open spec fn obeys_eq_spec() -> bool {
        true
    }

    open spec fn eq_spec(&self, other: &PasteHintsConfig) -> bool {
        self@.agrees(other@)
    }
}

impl Default for PasteHintsConfig {
    fn default() -> (r: PasteHintsConfig)
        ensures
            r@ == PasteHintsConfigView::initial(),
    {
        PasteHintsConfig {
            shift: no_texts(),
        }
    }
}

/// Tuning of the model-based voice-activity detector.
#[derive(Debug)]
pub struct VadConfig {
    /// Whether the detector runs at all.
    pub enabled: bool,
    /// File name of, or path to, the detector's model.
    pub model: String,
    /// Probability above which a frame counts as speech.
    pub threshold: Real32,
    /// Shortest span, in milliseconds, that counts as speech.
    pub min_speech_ms: u32,
    /// Shortest pause, in milliseconds, that ends a span.
    pub min_silence_ms: u32,
    /// Longest span, in seconds; positive infinity stands for no limit.
    pub max_speech_s: Real32,
    /// Padding, in milliseconds, kept around each span.
    pub speech_pad_ms: u32,
    /// Overlap, in seconds, between neighbouring spans.
    pub samples_overlap: Real32,
}

/// What a [`VadConfig`] holds, as mathematical values.
pub struct VadConfigView {
    pub enabled: bool,
    pub model: Seq<char>,
    pub threshold: Real32,
    pub min_speech_ms: u32,
    pub min_silence_ms: u32,
    pub max_speech_s: Real32,
    pub speech_pad_ms: u32,
    pub samples_overlap: Real32,
}

impl View for VadConfig {
    type V = VadConfigView;

    open spec fn view(&self) -> VadConfigView {
        VadConfigView {
            enabled: self.enabled,
            model: self.model@,
            threshold: self.threshold,
            min_speech_ms: self.min_speech_ms,
            min_silence_ms: self.min_silence_ms,
            max_speech_s: self.max_speech_s,
            speech_pad_ms: self.speech_pad_ms,
            samples_overlap: self.samples_overlap,
        }
    }
}

impl VadConfigView {
    /// The compiled-in value.
    pub open spec fn initial() -> VadConfigView {
        VadConfigView {
            enabled: false,
            model: vad_model_text(),
            threshold: Real32 { bits: 0x3f00_0000 },
            min_speech_ms: 250,
            min_silence_ms: 100,
            max_speech_s: Real32 { bits: INFINITY_BITS },
            speech_pad_ms: 30,
            samples_overlap: Real32 { bits: 0x3dcc_cccd },
        }
    }

    /// Whether two values are equal as settings: numbers compare by value,
    /// everything else by content.
    pub open spec fn agrees(self, other: VadConfigView) -> bool {
        &&& self.enabled == other.enabled
        &&& self.model == other.model
        &&& self.threshold.same(other.threshold)
        &&& self.min_speech_ms == other.min_speech_ms
        &&& self.min_silence_ms == other.min_silence_ms
        &&& self.max_speech_s.same(other.max_speech_s)
        &&& self.speech_pad_ms == other.speech_pad_ms
        &&& self.samples_overlap.same(other.samples_overlap)
    }
}

impl VadConfig {
    /// Whether two values are equal as settings.
    pub fn same_as(&self, other: &VadConfig) -> (r: bool)
        ensures
            r == self@.agrees(other@),
    {
        self.enabled == other.enabled
            && self.model == other.model
            && self.threshold.same_as(other.threshold)
            && self.min_speech_ms == other.min_speech_ms
            && self.min_silence_ms == other.min_silence_ms
            && self.max_speech_s.same_as(other.max_speech_s)
            && self.speech_pad_ms == other.speech_pad_ms
            && self.samples_overlap.same_as(other.samples_overlap)
    }
}

impl Clone for VadConfig {
    fn clone(&self) -> (r: VadConfig)
        ensures
            r@ == self@,
    {
        VadConfig {
            enabled: self.enabled,
            model: self.model.clone(),
            threshold: self.threshold,
            min_speech_ms: self.min_speech_ms,
            min_silence_ms: self.min_silence_ms,
            max_speech_s: self.max_speech_s,
            speech_pad_ms: self.speech_pad_ms,
            samples_overlap: self.samples_overlap,
        }
    }
}

impl PartialEq for VadConfig {
    fn eq(&self, other: &VadConfig) -> (r: bool) {
        self.same_as(other)
    }
}

impl PartialEqSpecImpl for VadConfig {
    open spec fn obeys_eq_spec() -> bool {
        true
    }

    open spec fn eq_spec(&self, other: &VadConfig) -> bool {
        self@.agrees(other@)
    }
}

impl Default for VadConfig {
    fn default() -> (r: VadConfig)
        ensures
            r@ == VadConfigView::initial(),
    {
        VadConfig {
            enabled: false,
            model: default_vad_model(),
            threshold: default_vad_threshold(),
            min_speech_ms: default_vad_min_speech_ms(),
            min_silence_ms: default_vad_min_silence_ms(),
            max_speech_s: default_vad_max_speech_s(),
            speech_pad_ms: default_vad_speech_pad_ms(),
            samples_overlap: default_vad_samples_overlap(),
        }
    }
}

/// How eagerly the fast detector discards audio.
#[derive(Clone, Copy, Debug, PartialEq, Eq, Structural)]
pub enum FastVadProfileConfig {
    /// Keeps the most audio.
    Quality,
    /// Tuned for low-bitrate input.
    LowBitrate,
    /// Discards more.
    Aggressive,
    /// Discards the most.
    VeryAggressive,
}

impl Default for FastVadProfileConfig {
    fn default() -> (r: FastVadProfileConfig)
        ensures
            r == FastVadProfileConfig::Aggressive,
    {
        FastVadProfileConfig::Aggressive
    }
}

/// Tuning of the fast, heuristic voice-activity detector.
#[derive(Debug)]
pub struct FastVadConfig {
    /// Whether the detector runs at all.
    pub enabled: bool,
    /// How eagerly audio is discarded.
    pub profile: FastVadProfileConfig,
    /// Shortest span, in milliseconds, accepted as speech.
    pub min_speech_ms: u32,
    /// Silence, in milliseconds, that closes a span.
    pub silence_timeout_ms: u32,
    /// Audio, in milliseconds, kept from before a span.
    pub pre_roll_ms: u32,
    /// Audio, in milliseconds, kept from after a span.
    pub post_roll_ms: u32,
    /// Number of frames looked back over.
    pub volatility_window: u32,
    /// Volatility at which the detector becomes stricter.
    pub volatility_increase_threshold: Real32,
    /// Volatility at which the detector relaxes again.
    pub volatility_decrease_threshold: Real32,
}

/// What a [`FastVadConfig`] holds, as mathematical values.
pub struct FastVadConfigView {
    pub enabled: bool,
    pub profile: FastVadProfileConfig,
    pub min_speech_ms: u32,
    pub silence_timeout_ms: u32,
    pub pre_roll_ms: u32,
    pub post_roll_ms: u32,
    pub volatility_window: u32,
    pub volatility_increase_threshold: Real32,
    pub volatility_decrease_threshold: Real32,
}

impl View for FastVadConfig {
    type V = FastVadConfigView;

    open spec fn view(&self) -> FastVadConfigView {
        FastVadConfigView {
            enabled: self.enabled,
            profile: self.profile,
            min_speech_ms: self.min_speech_ms,
            silence_timeout_ms: self.silence_timeout_ms,
            pre_roll_ms: self.pre_roll_ms,
            post_roll_ms: self.post_roll_ms,
            volatility_window: self.volatility_window,
            volatility_increase_threshold: self.volatility_increase_threshold,
            volatility_decrease_threshold: self.volatility_decrease_threshold,
        }
    }
}

impl FastVadConfigView {
    /// The compiled-in value.
    pub open spec fn initial() -> FastVadConfigView {
        FastVadConfigView {
            enabled: false,
            profile: FastVadProfileConfig::Aggressive,
            min_speech_ms: 120,
            silence_timeout_ms: 500,
            pre_roll_ms: 120,
            post_roll_ms: 150,
            volatility_window: 24,
            volatility_increase_threshold: Real32 { bits: 0x3eb3_3333 },
            volatility_decrease_threshold: Real32 { bits: 0x3df5_c28f },
        }
    }

    /// Whether two values are equal as settings: numbers compare by value,
    /// everything else by content.
    pub open spec fn agrees(self, other: FastVadConfigView) -> bool {
        &&& self.enabled == other.enabled
        &&& self.profile == other.profile
        &&& self.min_speech_ms == other.min_speech_ms
        &&& self.silence_timeout_ms == other.silence_timeout_ms
        &&& self.pre_roll_ms == other.pre_roll_ms
        &&& self.post_roll_ms == other.post_roll_ms
        &&& self.volatility_window == other.volatility_window
        &&& self.volatility_increase_threshold.same(other.volatility_increase_threshold)
        &&& self.volatility_decrease_threshold.same(other.volatility_decrease_threshold)
    }
}

impl FastVadConfig {
    /// Whether two values are equal as settings.
    pub fn same_as(&self, other: &FastVadConfig) -> (r: bool)
        ensures
            r == self@.agrees(other@),
    {
        self.enabled == other.enabled
            && self.profile == other.profile
            && self.min_speech_ms == other.min_speech_ms
            && self.silence_timeout_ms == other.silence_timeout_ms
            && self.pre_roll_ms == other.pre_roll_ms
            && self.post_roll_ms == other.post_roll_ms
            && self.volatility_window == other.volatility_window
            && self.volatility_increase_threshold.same_as(other.volatility_increase_threshold)
            && self.volatility_decrease_threshold.same_as(other.volatility_decrease_threshold)
    }
}

impl Clone for FastVadConfig {
    fn clone(&self) -> (r: FastVadConfig)
        ensures
            r@ == self@,
    {
        FastVadConfig {
            enabled: self.enabled,
            profile: self.profile,
            min_speech_ms: self.min_speech_ms,
            silence_timeout_ms: self.silence_timeout_ms,
            pre_roll_ms: self.pre_roll_ms,
            post_roll_ms: self.post_roll_ms,
            volatility_window: self.volatility_window,
            volatility_increase_threshold: self.volatility_increase_threshold,
            volatility_decrease_threshold: self.volatility_decrease_threshold,
        }
    }
}

impl PartialEq for FastVadConfig {
    fn eq(&self, other: &FastVadConfig) -> (r: bool) {
        self.same_as(other)
    }
}

impl PartialEqSpecImpl for FastVadConfig {
    open spec fn obeys_eq_spec() -> bool {
        true
    }

    open spec fn eq_spec(&self, other: &FastVadConfig) -> bool {
        self@.agrees(other@)
    }
}

impl Default for FastVadConfig {
    fn default() -> (r: FastVadConfig)
        ensures
            r@ == FastVadConfigView::initial(),
    {
        FastVadConfig {
            enabled: false,
            profile: FastVadProfileConfig::default(),
            min_speech_ms: default_fast_vad_min_speech_ms(),
            silence_timeout_ms: default_fast_vad_silence_timeout_ms(),
            pre_roll_ms: default_fast_vad_pre_roll_ms(),
            post_roll_ms: default_fast_vad_post_roll_ms(),
            volatility_window: default_fast_vad_volatility_window(),
            volatility_increase_threshold: default_fast_vad_volatility_increase_threshold(),
            volatility_decrease_threshold: default_fast_vad_volatility_decrease_threshold(),
        }
    }
}

/// The backend that turns audio into text.
#[derive(Clone, Copy, Debug, PartialEq, Eq, Structural)]
pub enum TranscriptionProvider {
    /// The local whisper.cpp binary.
    WhisperCpp,
    /// The Groq service.
    Groq,
    /// The Gemini service.
    Gemini,
    /// The local Parakeet model.
    Parakeet,
}

impl Default for TranscriptionProvider {
    fn default() -> (r: TranscriptionProvider)
        ensures
            r == TranscriptionProvider::WhisperCpp,
    {
        TranscriptionProvider::WhisperCpp
    }
}

impl TranscriptionProvider {
    /// The name under which the provider is shown.
    pub open spec fn label_text(self) -> Seq<char> {
        match self {
            TranscriptionProvider::WhisperCpp => "Local"@,
            TranscriptionProvider::Groq => "Groq"@,
            TranscriptionProvider::Gemini => "Gemini"@,
            TranscriptionProvider::Parakeet => "Parakeet TDT"@,
        }
    }

    /// The name under which the provider is shown.
    pub fn label(&self) -> (s: &'static str)
        ensures
            s@ == self.label_text(),
    {
        match self {
            TranscriptionProvider::WhisperCpp => "Local",
            TranscriptionProvider::Groq => "Groq",
            TranscriptionProvider::Gemini => "Gemini",
            TranscriptionProvider::Parakeet => "Parakeet TDT",
        }
    }
}

/// Settings of the local whisper.cpp provider.
#[derive(Debug)]
pub struct WhisperCppConfig {
    /// Prompt handed to the model.
    pub prompt: String,
    /// Name of the model, such as `base` or `small.en`.
    pub model: String,
    /// Worker threads.
    pub threads: usize,
    /// Layers offloaded to the GPU.
    pub gpu_layers: i32,
    /// Whether older binary names are tried as well.
    pub fallback_cli: bool,
    /// Probability above which a segment counts as silence.
    pub no_speech_threshold: Real32,
    /// Directories searched for models, most preferred first.
    pub models_dirs: Vec<String>,
    /// The model-based voice-activity detector.
    pub vad: VadConfig,
}

/// What a [`WhisperCppConfig`] holds, as mathematical values.
pub struct WhisperCppConfigView {
    pub prompt: Seq<char>,
    pub model: Seq<char>,
    pub threads: usize,
    pub gpu_layers: i32,
    pub fallback_cli: bool,
    pub no_speech_threshold: Real32,
    pub models_dirs: Seq<Seq<char>>,
    pub vad: VadConfigView,
}

impl View for WhisperCppConfig {
    type V = WhisperCppConfigView;

    open spec fn view(&self) -> WhisperCppConfigView {
        WhisperCppConfigView {
            prompt: self.prompt@,
            model: self.model@,
            threads: self.threads,
            gpu_layers: self.gpu_layers,
            fallback_cli: self.fallback_cli,
            no_speech_threshold: self.no_speech_threshold,
            models_dirs: texts_of(self.models_dirs@),
            vad: self.vad@,
        }
    }
}

impl WhisperCppConfigView {
    /// The compiled-in value.
    pub open spec fn initial() -> WhisperCppConfigView {
        WhisperCppConfigView {
            prompt: whisper_prompt_text(),
            model: model_text(),
            threads: 4,
            gpu_layers: 999,
            fallback_cli: false,
            no_speech_threshold: Real32 { bits: 0x3f19_999a },
            models_dirs: Seq::empty(),
            vad: VadConfigView::initial(),
        }
    }

    /// Whether two values are equal as settings: numbers compare by value,
    /// everything else by content.
    pub open spec fn agrees(self, other: WhisperCppConfigView) -> bool {
        &&& self.prompt == other.prompt
        &&& self.model == other.model
        &&& self.threads == other.threads
        &&& self.gpu_layers == other.gpu_layers
        &&& self.fallback_cli == other.fallback_cli
        &&& self.no_speech_threshold.same(other.no_speech_threshold)
        &&& self.models_dirs == other.models_dirs
        &&& self.vad.agrees(other.vad)
    }
}

impl WhisperCppConfig {
    /// Whether two values are equal as settings.
    pub fn same_as(&self, other: &WhisperCppConfig) -> (r: bool)
        ensures
            r == self@.agrees(other@),
    {
        self.prompt == other.prompt
            && self.model == other.model
            && self.threads == other.threads
            && self.gpu_layers == other.gpu_layers
            && self.fallback_cli == other.fallback_cli
            && self.no_speech_threshold.same_as(other.no_speech_threshold)
            && same_texts(&self.models_dirs, &other.models_dirs)
            && self.vad.same_as(&other.vad)
    }
}

impl Clone for WhisperCppConfig {
    fn clone(&self) -> (r: WhisperCppConfig)
        ensures
            r@ == self@,
    {
        WhisperCppConfig {
            prompt: self.prompt.clone(),
            model: self.model.clone(),
            threads: self.threads,
            gpu_layers: self.gpu_layers,
            fallback_cli: self.fallback_cli,
            no_speech_threshold: self.no_speech_threshold,
            models_dirs: clone_texts(&self.models_dirs),
            vad: self.vad.clone(),
        }
    }
}

impl PartialEq for WhisperCppConfig {
    fn eq(&self, other: &WhisperCppConfig) -> (r: bool) {
        self.same_as(other)
    }
}

impl PartialEqSpecImpl for WhisperCppConfig {
    open spec fn obeys_eq_spec() -> bool {
        true
    }

    open spec fn eq_spec(&self, other: &WhisperCppConfig) -> bool {
        self@.agrees(other@)
    }
}

impl Default for WhisperCppConfig {
    fn default() -> (r: WhisperCppConfig)
        ensures
            r@ == WhisperCppConfigView::initial(),
    {
        WhisperCppConfig {
            prompt: default_whisper_prompt(),
            model: default_model(),
            threads: default_threads(),
            gpu_layers: default_gpu_layers(),
            fallback_cli: false,
            no_speech_threshold: default_no_speech_threshold(),
            models_dirs: no_texts(),
            vad: VadConfig::default(),
        }
    }
}

/// Settings of the Groq provider.
#[derive(Debug)]
pub struct GroqConfig {
    /// Model id.
    pub model: String,
    /// Endpoint of the service.
    pub endpoint: String,
    /// Prompt handed to the model.
    pub prompt: String,
}

/// What a [`GroqConfig`] holds, as mathematical values.
pub struct GroqConfigView {
    pub model: Seq<char>,
    pub endpoint: Seq<char>,
    pub prompt: Seq<char>,
}

impl View for GroqConfig {
    type V = GroqConfigView;

    open spec fn view(&self) -> GroqConfigView {
        GroqConfigView {
            model: self.model@,
            endpoint: self.endpoint@,
            prompt: self.prompt@,
        }
    }
}

impl GroqConfigView {
    /// The compiled-in value.
    pub open spec fn initial() -> GroqConfigView {
        GroqConfigView {
            model: groq_model_text(),
            endpoint: groq_endpoint_text(),
            prompt: whisper_prompt_text(),
        }
    }

    /// Whether two values are equal as settings: numbers compare by value,
    /// everything else by content.
    pub open spec fn agrees(self, other: GroqConfigView) -> bool {
        &&& self.model == other.model
        &&& self.endpoint == other.endpoint
        &&& self.prompt == other.prompt
    }
}

impl GroqConfig {
    /// Whether two values are equal as settings.
    pub fn same_as(&self, other: &GroqConfig) -> (r: bool)
        ensures
            r == self@.agrees(other@),
    {
        self.model == other.model
            && self.endpoint == other.endpoint
            && self.prompt == other.prompt
    }
}

impl Clone for GroqConfig {
    fn clone(&self) -> (r: GroqConfig)
        ensures
            r@ == self@,
    {
        GroqConfig {
            model: self.model.clone(),
            endpoint: self.endpoint.clone(),
            prompt: self.prompt.clone(),
        }
    }
}

impl PartialEq for GroqConfig {
    fn eq(&self, other: &GroqConfig) -> (r: bool) {
        self.same_as(other)
    }
}

impl PartialEqSpecImpl for GroqConfig {
    open spec fn obeys_eq_spec() -> bool {
        true
    }

    open spec fn eq_spec(&self, other: &GroqConfig) -> bool {
        self@.agrees(other@)
    }
}

impl Default for GroqConfig {
    fn default() -> (r: GroqConfig)
        ensures
            r@ == GroqConfigView::initial(),
    {
        GroqConfig {
            model: default_groq_model(),
            endpoint: default_groq_endpoint(),
            prompt: default_whisper_prompt(),
        }
    }
}

/// Settings of the Gemini provider.
#[derive(Debug)]
pub struct GeminiConfig {
    /// Model id.
    pub model: String,
    /// Endpoint of the service.
    pub endpoint: String,
    /// Sampling temperature.
    pub temperature: Real32,
    /// Upper bound on the tokens of an answer.
    pub max_output_tokens: u32,
    /// Prompt handed to the model.
    pub prompt: String,
}

/// What a [`GeminiConfig`] holds, as mathematical values.
pub struct GeminiConfigView {
    pub model: Seq<char>,
    pub endpoint: Seq<char>,
    pub temperature: Real32,
    pub max_output_tokens: u32,
    pub prompt: Seq<char>,
}

impl View for GeminiConfig {
    type V = GeminiConfigView;

    open spec fn view(&self) -> GeminiConfigView {
        GeminiConfigView {
            model: self.model@,
            endpoint: self.endpoint@,
            temperature: self.temperature,
            max_output_tokens: self.max_output_tokens,
            prompt: self.prompt@,
        }
    }
}

impl GeminiConfigView {
    /// The compiled-in value.
    pub open spec fn initial() -> GeminiConfigView {
        GeminiConfigView {
            model: gemini_model_text(),
            endpoint: gemini_endpoint_text(),
            temperature: Real32 { bits: 0x0000_0000 },
            max_output_tokens: 1024,
            prompt: whisper_prompt_text(),
        }
    }

    /// Whether two values are equal as settings: numbers compare by value,
    /// everything else by content.
    pub open spec fn agrees(self, other: GeminiConfigView) -> bool {
        &&& self.model == other.model
        &&& self.endpoint == other.endpoint
        &&& self.temperature.same(other.temperature)
        &&& self.max_output_tokens == other.max_output_tokens
        &&& self.prompt == other.prompt
    }
}

impl GeminiConfig {
    /// Whether two values are equal as settings.
    pub fn same_as(&self, other: &GeminiConfig) -> (r: bool)
        ensures
            r == self@.agrees(other@),
    {
        self.model == other.model
            && self.endpoint == other.endpoint
            && self.temperature.same_as(other.temperature)
            && self.max_output_tokens == other.max_output_tokens
            && self.prompt == other.prompt
    }
}

impl Clone for GeminiConfig {
    fn clone(&self) -> (r: GeminiConfig)
        ensures
            r@ == self@,
    {
        GeminiConfig {
            model: self.model.clone(),
            endpoint: self.endpoint.clone(),
            temperature: self.temperature,
            max_output_tokens: self.max_output_tokens,
            prompt: self.prompt.clone(),
        }
    }
}

impl PartialEq for GeminiConfig {
    fn eq(&self, other: &GeminiConfig) -> (r: bool) {
        self.same_as(other)
    }
}

impl PartialEqSpecImpl for GeminiConfig {
    open spec fn obeys_eq_spec() -> bool {
        true
    }

    open spec fn eq_spec(&self, other: &GeminiConfig) -> bool {
        self@.agrees(other@)
    }
}

impl Default for GeminiConfig {
    fn default() -> (r: GeminiConfig)
        ensures
            r@ == GeminiConfigView::initial(),
    {
        GeminiConfig {
            model: default_gemini_model(),
            endpoint: default_gemini_endpoint(),
            temperature: default_gemini_temperature(),
            max_output_tokens: default_gemini_max_output_tokens(),
            prompt: default_whisper_prompt(),
        }
    }
}

/// Settings of the Parakeet provider.
#[derive(Debug)]
pub struct ParakeetConfig {
    /// Directory of the model, relative to the per-user data directory.
    pub model_dir: String,
    /// Prompt handed to the model.
    pub prompt: String,
}

/// What a [`ParakeetConfig`] holds, as mathematical values.
pub struct ParakeetConfigView {
    pub model_dir: Seq<char>,
    pub prompt: Seq<char>,
}

impl View for ParakeetConfig {
    type V = ParakeetConfigView;

    open spec fn view(&self) -> ParakeetConfigView {
        ParakeetConfigView {
            model_dir: self.model_dir@,
            prompt: self.prompt@,
        }
    }
}

impl ParakeetConfigView {
    /// The compiled-in value.
    pub open spec fn initial() -> ParakeetConfigView {
        ParakeetConfigView {
            model_dir: parakeet_model_dir_text(),
            prompt: whisper_prompt_text(),
        }
    }

    /// Whether two values are equal as settings: numbers compare by value,
    /// everything else by content.
    pub open spec fn agrees(self, other: ParakeetConfigView) -> bool {
        &&& self.model_dir == other.model_dir
        &&& self.prompt == other.prompt
    }
}

impl ParakeetConfig {
    /// Whether two values are equal as settings.
    pub fn same_as(&self, other: &ParakeetConfig) -> (r: bool)
        ensures
            r == self@.agrees(other@),
    {
        self.model_dir == other.model_dir
            && self.prompt == other.prompt
    }
}

impl Clone for ParakeetConfig {
    fn clone(&self) -> (r: ParakeetConfig)
        ensures
            r@ == self@,
    {
        ParakeetConfig {
            model_dir: self.model_dir.clone(),
            prompt: self.prompt.clone(),
        }
    }
}

impl PartialEq for ParakeetConfig {
    fn eq(&self, other: &ParakeetConfig) -> (r: bool) {
        self.same_as(other)
    }
}

impl PartialEqSpecImpl for ParakeetConfig {
    open spec fn obeys_eq_spec() -> bool {
        true
    }

    open spec fn eq_spec(&self, other: &ParakeetConfig) -> bool {
        self@.agrees(other@)
    }
}

impl Default for ParakeetConfig {
    fn default() -> (r: ParakeetConfig)
        ensures
            r@ == ParakeetConfigView::initial(),
    {
        ParakeetConfig {
            model_dir: default_parakeet_model_dir(),
            prompt: default_whisper_prompt(),
        }
    }
}

/// Which provider transcribes, and the settings of each.
#[derive(Debug)]
pub struct TranscriptionConfig {
    /// The provider in use.
    pub provider: TranscriptionProvider,
    /// Seconds after which a request is abandoned.
    pub request_timeout_secs: u64,
    /// How often a failed request is tried again.
    pub max_retries: u32,
    /// The local whisper.cpp provider.
    pub whisper_cpp: WhisperCppConfig,
    /// The Groq provider.
    pub groq: GroqConfig,
    /// The Gemini provider.
    pub gemini: GeminiConfig,
    /// The Parakeet provider.
    pub parakeet: ParakeetConfig,
}

/// What a [`TranscriptionConfig`] holds, as mathematical values.
pub struct TranscriptionConfigView {
    pub provider: TranscriptionProvider,
    pub request_timeout_secs: u64,
    pub max_retries: u32,
    pub whisper_cpp: WhisperCppConfigView,
    pub groq: GroqConfigView,
    pub gemini: GeminiConfigView,
    pub parakeet: ParakeetConfigView,
}

impl View for TranscriptionConfig {
    type V = TranscriptionConfigView;

    open spec fn view(&self) -> TranscriptionConfigView {
        TranscriptionConfigView {
            provider: self.provider,
            request_timeout_secs: self.request_timeout_secs,
            max_retries: self.max_retries,
            whisper_cpp: self.whisper_cpp@,
            groq: self.groq@,
            gemini: self.gemini@,
            parakeet: self.parakeet@,
        }
    }
}

impl TranscriptionConfigView {
    /// The compiled-in value.
    pub open spec fn initial() -> TranscriptionConfigView {
        TranscriptionConfigView {
            provider: TranscriptionProvider::WhisperCpp,
            request_timeout_secs: 45,
            max_retries: 2,
            whisper_cpp: WhisperCppConfigView::initial(),
            groq: GroqConfigView::initial(),
            gemini: GeminiConfigView::initial(),
            parakeet: ParakeetConfigView::initial(),
        }
    }

    /// Whether two values are equal as settings: numbers compare by value,
    /// everything else by content.
    pub open spec fn agrees(self, other: TranscriptionConfigView) -> bool {
        &&& self.provider == other.provider
        &&& self.request_timeout_secs == other.request_timeout_secs
        &&& self.max_retries == other.max_retries
        &&& self.whisper_cpp.agrees(other.whisper_cpp)
        &&& self.groq.agrees(other.groq)
        &&& self.gemini.agrees(other.gemini)
        &&& self.parakeet.agrees(other.parakeet)
    }
}

impl TranscriptionConfig {
    /// Whether two values are equal as settings.
    pub fn same_as(&self, other: &TranscriptionConfig) -> (r: bool)
        ensures
            r == self@.agrees(other@),
    {
        self.provider == other.provider
            && self.request_timeout_secs == other.request_timeout_secs
            && self.max_retries == other.max_retries
            && self.whisper_cpp.same_as(&other.whisper_cpp)
            && self.groq.same_as(&other.groq)
            && self.gemini.same_as(&other.gemini)
            && self.parakeet.same_as(&other.parakeet)
    }
}

impl Clone for TranscriptionConfig {
    fn clone(&self) -> (r: TranscriptionConfig)
        ensures
            r@ == self@,
    {
        TranscriptionConfig {
            provider: self.provider,
            request_timeout_secs: self.request_timeout_secs,
            max_retries: self.max_retries,
            whisper_cpp: self.whisper_cpp.clone(),
            groq: self.groq.clone(),
            gemini: self.gemini.clone(),
            parakeet: self.parakeet.clone(),
        }
    }
}

impl PartialEq for TranscriptionConfig {
    fn eq(&self, other: &TranscriptionConfig) -> (r: bool) {
        self.same_as(other)
    }
}

impl PartialEqSpecImpl for TranscriptionConfig {
    open spec fn obeys_eq_spec() -> bool {
        true
    }

    open spec fn eq_spec(&self, other: &TranscriptionConfig) -> bool {
        self@.agrees(other@)
    }
}

impl Default for TranscriptionConfig {
    fn default() -> (r: TranscriptionConfig)
        ensures
            r@ == TranscriptionConfigView::initial(),
    {
        TranscriptionConfig {
            provider: TranscriptionProvider::default(),
            request_timeout_secs: default_transcription_request_timeout_secs(),
            max_retries: default_transcription_max_retries(),
            whisper_cpp: WhisperCppConfig::default(),
            groq: GroqConfig::default(),
            gemini: GeminiConfig::default(),
            parakeet: ParakeetConfig::default(),
        }
    }
}

impl VadConfig {
    /// The longest span of speech that a document's entry stands for: the
    /// number it gives, or no limit where it gives `null`.
    pub open spec fn max_speech_s_of(entry: Option<Real32>) -> Real32 {
        match entry {
            Some(seconds) => seconds,
            None => Real32 { bits: INFINITY_BITS },
        }
    }

    /// Reads the longest span of speech from a document's entry, which is
    /// a number or `null`.
    pub fn decode_max_speech_s(entry: Option<Real32>) -> (r: Real32)
        ensures
            r == VadConfig::max_speech_s_of(entry),
            entry is None ==> !r.is_finite(),
    {
        match entry {
            Some(seconds) => seconds,
            None => default_vad_max_speech_s(),
        }
    }

    /// Whether a document leaves the longest span of speech out: it does
    /// where the span has no limit, or is no number at all.
    pub fn omits_max_speech_s(&self) -> (b: bool)
        ensures
            b == !self@.max_speech_s.is_finite(),
    {
        self.max_speech_s.non_finite()
    }
}

/// The compiled-in detector tuning has no limit on the span of speech, so
/// a document of it leaves that entry out.
pub proof fn lemma_default_omits_max_speech_s()
    ensures
        !VadConfigView::initial().max_speech_s.is_finite(),
{
    assert((0x7f80_0000u32 & 0x7f80_0000u32) == 0x7f80_0000u32) by (bit_vector);
}

/// What an optional detector tuning holds.
pub open spec fn vad_opt_view(o: Option<VadConfig>) -> Option<VadConfigView> {
    match o {
        Some(v) => Some(v@),
        None => None,
    }
}

/// Equality, as settings, of two optional detector tunings.
pub open spec fn vad_opt_agrees(a: Option<VadConfigView>, b: Option<VadConfigView>) -> bool {
    match (a, b) {
        (Some(x), Some(y)) => x.agrees(y),
        (None, None) => true,
        _ => false,
    }
}

/// An independent copy of an optional detector tuning.
pub fn clone_vad_opt(o: &Option<VadConfig>) -> (r: Option<VadConfig>)
    ensures
        vad_opt_view(r) == vad_opt_view(*o),
{
    match o {
        Some(v) => Some(v.clone()),
        None => None,
    }
}

/// Executable form of [`vad_opt_agrees`].
pub fn same_vad_opt(a: &Option<VadConfig>, b: &Option<VadConfig>) -> (r: bool)
    ensures
        r == vad_opt_agrees(vad_opt_view(*a), vad_opt_view(*b)),
{
    match (a, b) {
        (Some(x), Some(y)) => x.same_as(y),
        (None, None) => true,
        _ => false,
    }
}

} // verus!
