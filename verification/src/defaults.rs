//! The compiled-in value of every setting.

use crate::number::Real32;
use vstd::prelude::*;

verus! {

/// The key chord that starts and stops dictation unless another is configured.
pub open spec fn primary_shortcut_text() -> Seq<char> {
    "SUPER+ALT+R"@
}

/// The key chord that starts and stops dictation unless another is configured.
pub fn default_primary_shortcut() -> (s: String)
    ensures
        s@ == primary_shortcut_text(),
{
    "SUPER+ALT+R".to_owned()
}

/// Name of the transcription model used by the local provider.
pub open spec fn model_text() -> Seq<char> {
    "base"@
}

/// Name of the transcription model used by the local provider.
pub fn default_model() -> (s: String)
    ensures
        s@ == model_text(),
{
    "base".to_owned()
}

/// Prompt handed to every provider unless another is configured.
pub open spec fn whisper_prompt_text() -> Seq<char> {
    "Transcribe with proper capitalization, including sentence beginnings, proper nouns, titles, and standard English capitalization rules."@
}

/// Prompt handed to every provider unless another is configured.
pub fn default_whisper_prompt() -> (s: String)
    ensures
        s@ == whisper_prompt_text(),
{
    "Transcribe with proper capitalization, including sentence beginnings, proper nouns, titles, and standard English capitalization rules.".to_owned()
}

/// File name of the voice-activity-detection model.
pub open spec fn vad_model_text() -> Seq<char> {
    "ggml-silero-v5.1.2.bin"@
}

/// File name of the voice-activity-detection model.
pub fn default_vad_model() -> (s: String)
    ensures
        s@ == vad_model_text(),
{
    "ggml-silero-v5.1.2.bin".to_owned()
}

/// Model id requested from Groq.
pub open spec fn groq_model_text() -> Seq<char> {
    "whisper-large-v3-turbo"@
}

/// Model id requested from Groq.
pub fn default_groq_model() -> (s: String)
    ensures
        s@ == groq_model_text(),
{
    "whisper-large-v3-turbo".to_owned()
}

/// Endpoint of the Groq transcription service.
pub open spec fn groq_endpoint_text() -> Seq<char> {
    "https://api.groq.com/openai/v1/audio/transcriptions"@
}

/// Endpoint of the Groq transcription service.
pub fn default_groq_endpoint() -> (s: String)
    ensures
        s@ == groq_endpoint_text(),
{
    "https://api.groq.com/openai/v1/audio/transcriptions".to_owned()
}

/// Model id requested from Gemini.
pub open spec fn gemini_model_text() -> Seq<char> {
    "gemini-2.5-pro-exp-0827"@
}

/// Model id requested from Gemini.
pub fn default_gemini_model() -> (s: String)
    ensures
        s@ == gemini_model_text(),
{
    "gemini-2.5-pro-exp-0827".to_owned()
}

/// Endpoint of the Gemini service.
pub open spec fn gemini_endpoint_text() -> Seq<char> {
    "https://generativelanguage.googleapis.com/v1beta/models"@
}

/// Endpoint of the Gemini service.
pub fn default_gemini_endpoint() -> (s: String)
    ensures
        s@ == gemini_endpoint_text(),
{
    "https://generativelanguage.googleapis.com/v1beta/models".to_owned()
}

/// Directory of the Parakeet model, relative to the per-user data directory.
pub open spec fn parakeet_model_dir_text() -> Seq<char> {
    "models/parakeet/parakeet-tdt-0.6b-v3-onnx"@
}

/// Directory of the Parakeet model, relative to the per-user data directory.
pub fn default_parakeet_model_dir() -> (s: String)
    ensures
        s@ == parakeet_model_dir_text(),
{
    "models/parakeet/parakeet-tdt-0.6b-v3-onnx".to_owned()
}

/// Number of layers offloaded to the GPU: all of them.
pub fn default_gpu_layers() -> (n: i32)
    ensures
        n == 999,
{
    999
}

/// Worker threads of the local provider.
pub fn default_threads() -> (n: usize)
    ensures
        n == 4,
{
    4
}

/// Shortest span, in milliseconds, that counts as speech.
pub fn default_vad_min_speech_ms() -> (n: u32)
    ensures
        n == 250,
{
    250
}

/// Shortest pause, in milliseconds, that ends a span of speech.
pub fn default_vad_min_silence_ms() -> (n: u32)
    ensures
        n == 100,
{
    100
}

/// Padding, in milliseconds, kept around each span of speech.
pub fn default_vad_speech_pad_ms() -> (n: u32)
    ensures
        n == 30,
{
    30
}

/// Seconds after which a transcription request is abandoned.
pub fn default_transcription_request_timeout_secs() -> (n: u64)
    ensures
        n == 45,
{
    45
}

/// How often a failed transcription request is tried again.
pub fn default_transcription_max_retries() -> (n: u32)
    ensures
        n == 2,
{
    2
}

/// Upper bound on the tokens Gemini may answer with.
pub fn default_gemini_max_output_tokens() -> (n: u32)
    ensures
        n == 1024,
{
    1024
}

/// Shortest span, in milliseconds, the fast detector accepts as speech.
pub fn default_fast_vad_min_speech_ms() -> (n: u32)
    ensures
        n == 120,
{
    120
}

/// Silence, in milliseconds, after which the fast detector closes a span.
pub fn default_fast_vad_silence_timeout_ms() -> (n: u32)
    ensures
        n == 500,
{
    500
}

/// Audio, in milliseconds, kept from before a span.
pub fn default_fast_vad_pre_roll_ms() -> (n: u32)
    ensures
        n == 120,
{
    120
}

/// Audio, in milliseconds, kept from after a span.
pub fn default_fast_vad_post_roll_ms() -> (n: u32)
    ensures
        n == 150,
{
    150
}

/// Number of frames the fast detector looks back over.
pub fn default_fast_vad_volatility_window() -> (n: u32)
    ensures
        n == 24,
{
    24
}

/// Whether a transcript is copied to the clipboard.
pub fn default_auto_copy_clipboard() -> (b: bool)
    ensures
        b == true,
{
    true
}

/// Whether pasting uses the shifted paste chord.
pub fn default_shift_paste() -> (b: bool)
    ensures
        b == true,
{
    true
}

/// Volume of the start and stop sounds: 0.3, as a bit pattern.
pub fn default_volume() -> (r: Real32)
    ensures
        r.bits == 0x3e99_999a,
{
    Real32 { bits: 0x3e99_999a }
}

/// Probability above which a segment counts as silence: 0.6, as a bit pattern.
pub fn default_no_speech_threshold() -> (r: Real32)
    ensures
        r.bits == 0x3f19_999a,
{
    Real32 { bits: 0x3f19_999a }
}

/// Probability above which a frame counts as speech: 0.5, as a bit pattern.
pub fn default_vad_threshold() -> (r: Real32)
    ensures
        r.bits == 0x3f00_0000,
{
    Real32 { bits: 0x3f00_0000 }
}

/// Overlap, in seconds, between neighbouring spans: 0.1, as a bit pattern.
pub fn default_vad_samples_overlap() -> (r: Real32)
    ensures
        r.bits == 0x3dcc_cccd,
{
    Real32 { bits: 0x3dcc_cccd }
}

/// Sampling temperature asked of Gemini: 0.0, as a bit pattern.
pub fn default_gemini_temperature() -> (r: Real32)
    ensures
        r.bits == 0x0000_0000,
{
    Real32 { bits: 0x0000_0000 }
}

/// Volatility at which the fast detector becomes stricter: 0.35, as a bit pattern.
pub fn default_fast_vad_volatility_increase_threshold() -> (r: Real32)
    ensures
        r.bits == 0x3eb3_3333,
{
    Real32 { bits: 0x3eb3_3333 }
}

/// Volatility at which the fast detector relaxes again: 0.12, as a bit pattern.
pub fn default_fast_vad_volatility_decrease_threshold() -> (r: Real32)
    ensures
        r.bits == 0x3df5_c28f,
{
    Real32 { bits: 0x3df5_c28f }
}

/// Longest span of speech, in seconds: unbounded, which is positive
/// infinity. A document never spells this value out.
pub fn default_vad_max_speech_s() -> (r: Real32)
    ensures
        r.bits == crate::number::INFINITY_BITS,
        !r.is_finite(),
{
    Real32::infinity()
}

} // verus!
