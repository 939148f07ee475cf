//! Push-to-talk dictation core: capture buffering, conversion to canonical
//! 16 kHz mono audio, transcript assembly, text refinement policy and the
//! toggle-driven pipeline state machine.

pub mod capture;
pub mod pipeline;
pub mod refine;
pub mod resample;
pub mod sound;
pub mod text;
pub mod transcription;

pub use capture::{
    find_device, resolve_config, resolve_device, CaptureBuffer, CaptureConfig, CaptureError,
};
pub use pipeline::{
    after_delivery, after_transcription, delivery_text, NextStep, Phase, PipelineEvent, RecordingState,
    RefineOutcome, ToggleAction, TranscriptionFailure, TRANSCRIBER_UNAVAILABLE,
};
pub use refine::{
    refined_text_from_choices, DeepSeekClient, RefinementRequest, REFINE_API_URL, REFINE_MAX_TOKENS,
    REFINE_MODEL,
};
pub use resample::{resample_to_16k_mono, CANONICAL_RATE};
pub use sound::{generate_success_sound, TONE_PITCH, TONE_RATE, TONE_SAMPLES, WAV_HEADER_LEN};
pub use transcription::{language_from_id, transcript_from_segments, Language, ENGLISH_LANG_ID, POLISH_LANG_ID};
