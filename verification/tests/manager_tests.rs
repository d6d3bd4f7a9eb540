use handy::managers::async_model_loader::{
    load_progress, AsyncModelLoader, LoadAction, LoadStage, ModelLoadProgress, WaitStep,
};
use handy::managers::audio::{
    pad_samples, AudioRecordingManager, MicrophoneClose, MicrophoneMode, ModeChange,
    RecordingState, StartPlan,
};

#[test]
fn test_is_loading_initially_false() {
    let loader = AsyncModelLoader::new();
    assert!(!loader.is_loading());
}

#[test]
fn test_progress_stages() {
    let stages = vec!["initializing", "loading", "ready"];
    for stage in stages {
        let progress = ModelLoadProgress {
            model_id: "test".to_string(),
            stage: stage.to_string(),
            progress_percent: 0,
        };
        assert_eq!(progress.stage, stage);
    }
}

#[test]
fn loader_refuses_a_second_load() {
    let mut loader = AsyncModelLoader::new();
    assert!(loader.load_async("small".to_string()));
    assert_eq!(loader.current_model(), Some("small".to_string()));
    assert!(!loader.load_async("large".to_string()));
    assert_eq!(loader.current_model(), Some("small".to_string()));
    assert!(!loader.check_cancelled());
    loader.finish_load();
    assert!(!loader.is_loading());
    assert_eq!(loader.current_model(), None);
}

#[test]
fn loader_cancellation() {
    let mut loader = AsyncModelLoader::new();
    assert!(loader.load_async("m".to_string()));
    loader.cancel();
    assert!(loader.check_cancelled());
    assert!(!loader.is_loading());
    assert_eq!(loader.current_model(), None);
    // A new load clears the request.
    assert!(loader.load_async("m".to_string()));
    assert!(!loader.check_cancelled());
}

#[test]
fn progress_reports() {
    let p = load_progress(&"m".to_string(), LoadStage::Loading);
    assert_eq!(p.stage, "loading");
    assert_eq!(p.progress_percent, 50);
    let p = load_progress(&"m".to_string(), LoadStage::Ready);
    assert_eq!(p.stage, "ready");
    assert_eq!(p.progress_percent, 100);
    assert_eq!(load_progress(&"m".to_string(), LoadStage::Initializing).progress_percent, 0);
}

fn is_idle(m: &AudioRecordingManager) -> bool {
    matches!(m.state(), RecordingState::Idle)
}

#[test]
fn recording_session() {
    let mut m = AudioRecordingManager::new(false);
    assert!(is_idle(&m));
    assert_eq!(m.mode(), MicrophoneMode::OnDemand);
    assert_eq!(m.plan_start(), StartPlan::OpenThenStart);
    m.save_volume(Some(40));
    m.mark_open();
    m.recording_started("binding-1");
    assert_eq!(m.plan_start(), StartPlan::Busy);
    assert_eq!(m.stop_recording("wrong-binding"), None);
    assert!(!is_idle(&m));
    assert_eq!(m.stop_recording("binding-1"), Some(true));
    assert!(is_idle(&m));
    assert_eq!(
        m.close_microphone(),
        Some(MicrophoneClose {
            restore_volume: Some(40),
            stop_recorder: false
        })
    );
    assert_eq!(m.close_microphone(), None);
}

#[test]
fn cancel_and_modes() {
    let mut m = AudioRecordingManager::new(true);
    assert_eq!(m.mode(), MicrophoneMode::AlwaysOn);
    assert_eq!(m.cancel_recording(), None);
    assert_eq!(m.plan_start(), StartPlan::Start);
    m.recording_started("b");
    assert_eq!(m.plan_mode_change(MicrophoneMode::OnDemand), ModeChange::Nothing);
    assert_eq!(m.cancel_recording(), Some(false));
    assert_eq!(
        m.plan_mode_change(MicrophoneMode::OnDemand),
        ModeChange::CloseMicrophone
    );
    m.set_mode(MicrophoneMode::OnDemand);
    assert_eq!(
        m.plan_mode_change(MicrophoneMode::AlwaysOn),
        ModeChange::OpenMicrophone
    );
    assert_eq!(m.plan_mode_change(MicrophoneMode::OnDemand), ModeChange::Nothing);
}

#[test]
fn short_recordings_are_padded() {
    let padded = pad_samples(vec![0.5f32; 10], 0.0);
    assert_eq!(padded.len(), 20000);
    assert_eq!(padded[9], 0.5);
    assert_eq!(padded[10], 0.0);
    assert!(pad_samples(Vec::<f32>::new(), 0.0).is_empty());
    assert_eq!(pad_samples(vec![1i16; 16000], 0).len(), 16000);
}

#[test]
fn waiting_ends_when_idle_or_after_the_timeout() {
    let mut loader = AsyncModelLoader::new();
    assert_eq!(loader.wait_step(0, 5), WaitStep::Completed);
    assert!(loader.load_async("base".to_string()));
    assert_eq!(loader.wait_step(0, 5), WaitStep::Sleep);
    assert_eq!(loader.wait_step(5_000_000_000, 5), WaitStep::Sleep);
    assert_eq!(loader.wait_step(5_000_000_001, 5), WaitStep::TimedOut);
    loader.finish_load();
    assert_eq!(loader.wait_step(9_000_000_000, 5), WaitStep::Completed);
}

fn report(action: LoadAction) -> (String, String, u32) {
    match action {
        LoadAction::Report(p) => (p.model_id, p.stage, p.progress_percent),
        other => panic!("unexpected {:?}", other),
    }
}

#[test]
fn load_runs_its_stages_in_order() {
    let mut loader = AsyncModelLoader::new();
    assert!(matches!(loader.advance(), LoadAction::Finished));
    assert!(loader.load_async("base".to_string()));
    assert_eq!(report(loader.advance()), ("base".to_string(), "initializing".to_string(), 0));
    assert_eq!(report(loader.advance()), ("base".to_string(), "loading".to_string(), 50));
    assert!(matches!(loader.advance(), LoadAction::Pause { ms: 100 }));
    assert!(loader.is_loading());
    assert_eq!(report(loader.advance()), ("base".to_string(), "ready".to_string(), 100));
    assert!(matches!(loader.advance(), LoadAction::Finished));
    assert!(!loader.is_loading());
    assert_eq!(loader.current_model(), None);
}

#[test]
fn cancelled_load_stops_at_the_next_check() {
    let mut loader = AsyncModelLoader::new();
    assert!(loader.load_async("base".to_string()));
    assert_eq!(report(loader.advance()).1, "initializing");
    assert_eq!(report(loader.advance()).1, "loading");
    loader.cancel();
    assert!(matches!(loader.advance(), LoadAction::Pause { ms: 100 }));
    assert!(matches!(loader.advance(), LoadAction::Cancelled));
    assert!(!loader.is_loading());
    // A new load starts afresh.
    assert!(loader.load_async("small".to_string()));
    assert_eq!(report(loader.advance()).0, "small");
}
