use valleyflow::{
    after_delivery, after_transcription, delivery_text, resample_to_16k_mono, CaptureBuffer,
    Language, NextStep, Phase, PipelineEvent, RecordingState, RefineOutcome, ToggleAction,
    TranscriptionFailure, TRANSCRIBER_UNAVAILABLE,
};

#[test]
fn toggles_walk_through_one_cycle() {
    let mut st = RecordingState::new();
    assert_eq!(st.phase(), Phase::Idle);
    let (action, events) = st.toggle();
    assert_eq!(action, ToggleAction::StartCapture);
    assert!(events.is_empty());
    assert_eq!(st.capture_started(Ok(())), vec![PipelineEvent::RecordingState(true)]);
    assert!(st.is_recording());
    let (action, events) = st.toggle();
    assert_eq!(action, ToggleAction::StopCapture);
    assert_eq!(
        events,
        vec![PipelineEvent::RecordingState(false), PipelineEvent::RecordingProcessing(true)]
    );
    assert_eq!(st.phase(), Phase::Processing);
    assert!(!st.is_recording());
    // A toggle during processing starts nothing.
    let (action, events) = st.toggle();
    assert_eq!(action, ToggleAction::Ignore);
    assert!(events.is_empty());
    assert_eq!(st.phase(), Phase::Processing);
    assert_eq!(st.processing_finished(), vec![PipelineEvent::RecordingProcessing(false)]);
    assert_eq!(st.phase(), Phase::Idle);
    assert!(st.processing_finished().is_empty());
}

#[test]
fn failed_start_stays_idle() {
    let mut st = RecordingState::new();
    let (action, _) = st.toggle();
    assert_eq!(action, ToggleAction::StartCapture);
    let events = st.capture_started(Err("No input device available".to_string()));
    assert_eq!(events, vec![PipelineEvent::RecordingError("No input device available".to_string())]);
    assert_eq!(st.phase(), Phase::Idle);
    let (action, _) = st.toggle();
    assert_eq!(action, ToggleAction::StartCapture);
}

#[test]
fn event_channel_names() {
    assert_eq!(PipelineEvent::RecordingState(true).name(), "recording-state");
    assert_eq!(PipelineEvent::RecordingProcessing(false).name(), "recording-processing");
    assert_eq!(PipelineEvent::TranscriptionRaw(String::new()).name(), "transcription-raw");
    assert_eq!(PipelineEvent::TranscriptionComplete(String::new()).name(), "transcription-complete");
    assert_eq!(PipelineEvent::RecordingError(String::new()).name(), "recording-error");
}

#[test]
fn missing_model_ends_cycle_with_error() {
    let (next, events) = after_transcription(Err(TranscriptionFailure::Unavailable), true);
    assert_eq!(next, NextStep::Finish);
    assert_eq!(events, vec![PipelineEvent::RecordingError(TRANSCRIBER_UNAVAILABLE.to_string())]);
    assert_eq!(TRANSCRIBER_UNAVAILABLE, "Transcriber not initialized");
}

#[test]
fn engine_failure_ends_cycle_with_its_message() {
    let (next, events) =
        after_transcription(Err(TranscriptionFailure::Failed("boom".to_string())), false);
    assert_eq!(next, NextStep::Finish);
    assert_eq!(events, vec![PipelineEvent::RecordingError("boom".to_string())]);
}

#[test]
fn transcription_goes_to_refinement_when_configured() {
    let raw = "um hello world".to_string();
    let (next, events) = after_transcription(Ok((raw.clone(), Language::English)), true);
    assert_eq!(next, NextStep::Refine(raw.clone(), Language::English));
    assert_eq!(events, vec![PipelineEvent::TranscriptionRaw(raw.clone())]);
    let (next, _) = after_transcription(Ok((raw.clone(), Language::English)), false);
    assert_eq!(next, NextStep::Deliver(raw));
}

#[test]
fn refinement_result_or_fallback_is_delivered() {
    let raw = "um hello world".to_string();
    assert_eq!(
        delivery_text(raw.clone(), RefineOutcome::Refined("Hello world.".to_string())),
        "Hello world."
    );
    assert_eq!(
        delivery_text(raw.clone(), RefineOutcome::Failed("timeout".to_string())),
        "um hello world"
    );
    assert_eq!(delivery_text(raw.clone(), RefineOutcome::Skipped), "um hello world");
}

#[test]
fn empty_refinement_never_drops_transcription() {
    let raw = "hi".to_string();
    assert_eq!(delivery_text(raw, RefineOutcome::Refined(String::new())), "hi");
    assert_eq!(delivery_text(String::new(), RefineOutcome::Skipped), "");
}

#[test]
fn delivery_outcome_events() {
    assert_eq!(
        after_delivery("Hello world.".to_string(), Ok(())),
        vec![PipelineEvent::TranscriptionComplete("Hello world.".to_string())]
    );
    assert_eq!(
        after_delivery("Hello world.".to_string(), Err("clipboard unavailable".to_string())),
        vec![PipelineEvent::RecordingError("clipboard unavailable".to_string())]
    );
}

#[test]
fn silent_stereo_second_runs_a_full_cycle() {
    let mut st = RecordingState::new();
    let mut buf: CaptureBuffer<f32> = CaptureBuffer::new();
    let (action, _) = st.toggle();
    assert_eq!(action, ToggleAction::StartCapture);
    buf.begin();
    st.capture_started(Ok(()));
    for _ in 0..100 {
        buf.push_block(&[0.0f32; 960]);
    }
    let (action, _) = st.toggle();
    assert_eq!(action, ToggleAction::StopCapture);
    let samples = buf.finish();
    assert_eq!(samples.len(), 96000);
    let canonical =
        resample_to_16k_mono(&samples, 48000, 2, |f: Vec<f32>| f.iter().sum::<f32>() / 2.0);
    assert_eq!(canonical.len(), 16000);
    assert!(canonical.iter().all(|s| s.abs() < 1e-6));
    // A silent recording transcribes to empty text.
    let (next, events) = after_transcription(Ok((String::new(), Language::Unknown)), false);
    assert_eq!(events, vec![PipelineEvent::TranscriptionRaw(String::new())]);
    let text = match next {
        NextStep::Deliver(t) => t,
        other => panic!("unexpected step {:?}", other),
    };
    let events = after_delivery(text, Ok(()));
    assert!(!events.iter().any(|e| matches!(e, PipelineEvent::RecordingError(_))));
    assert_eq!(st.processing_finished(), vec![PipelineEvent::RecordingProcessing(false)]);
    assert_eq!(st.phase(), Phase::Idle);
}

#[test]
fn refinement_scenario_with_success_and_error() {
    let raw = "um hello world".to_string();
    let (next, _) = after_transcription(Ok((raw.clone(), Language::English)), true);
    let (raw_text, lang) = match next {
        NextStep::Refine(t, l) => (t, l),
        other => panic!("unexpected step {:?}", other),
    };
    assert_eq!(<&str>::from(lang), "en");
    let ok = delivery_text(raw_text.clone(), RefineOutcome::Refined("Hello world.".to_string()));
    assert_eq!(ok, "Hello world.");
    let failed = delivery_text(raw_text, RefineOutcome::Failed("500".to_string()));
    assert_eq!(failed, "um hello world");
}
