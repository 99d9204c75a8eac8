use gadaj::history::{recorded_language, remove_quotes, search_query};
use gadaj::input::paste::{paste_keystrokes, paste_method, PasteKey, PasteMethod};
use gadaj::models::{ModelLoad, ModelManager, ProgressTable};
use gadaj::pipeline::{Event, Pipeline, Reaction, State, Task};
use gadaj::platform::Platform;
use gadaj::settings::{hotkey_to_apply, Settings};
use gadaj::state::dirs_app_data;
use gadaj::text::{str_eq, trim};

#[test]
fn trim_unicode_whitespace() {
    assert_eq!(trim("  Cześć \t\n"), "Cześć");
    assert_eq!(trim("\u{3000}x\u{00A0}"), "x");
    assert_eq!(trim("   "), "");
    assert_eq!(trim(""), "");
    assert!(str_eq("Łódź", "Łódź"));
    assert!(!str_eq("Łódź", "Lodz"));
}

#[test]
fn search_query_blank_and_quotes() {
    assert_eq!(search_query(None), None);
    assert_eq!(search_query(Some("   ")), None);
    assert_eq!(search_query(Some("")), None);
    assert_eq!(search_query(Some("pogoda")), Some("pogoda".to_string()));
    assert_eq!(search_query(Some("\"quoted\"")), Some("quoted".to_string()));
    assert_eq!(search_query(Some(" smok* ")), Some(" smok* ".to_string()));
    assert_eq!(remove_quotes("a\"b\"\"c"), "abc");
}

#[test]
fn recorded_language_auto_is_none() {
    assert_eq!(recorded_language("auto"), None);
    assert_eq!(recorded_language("pl"), Some("pl".to_string()));
    assert_eq!(recorded_language("autopl"), Some("autopl".to_string()));
}

#[test]
fn hotkey_applied_only_when_changed() {
    let a = Some("Alt+Space".to_string());
    let b = Some("F9".to_string());
    assert_eq!(hotkey_to_apply(&a, &b), b);
    assert_eq!(hotkey_to_apply(&a, &a.clone()), None);
    assert_eq!(hotkey_to_apply(&a, &None), None);
    assert_eq!(hotkey_to_apply(&None, &a), a);
}

#[test]
fn settings_duplicate_is_equal() {
    let mut s = Settings::default();
    s.hotkey = Some("Alt+Space".to_string());
    let d = s.duplicate();
    assert_eq!(d.hotkey.as_deref(), Some("Alt+Space"));
    assert_eq!(d.model_id, s.model_id);
}

#[test]
fn progress_table_read_after_write() {
    let mut t = ProgressTable::new();
    assert_eq!(t.get("a"), None);
    t.insert("a", 10);
    t.insert("b", 20);
    t.insert("a", 30);
    assert_eq!(t.get("a"), Some(30));
    assert_eq!(t.get("b"), Some(20));
    t.remove("a");
    assert_eq!(t.get("a"), None);
    assert_eq!(t.get("b"), Some(20));
}

#[test]
fn model_catalogue_and_list() {
    let mut m = ModelManager::new();
    let all = m.descriptors();
    assert_eq!(all.len(), 1);
    assert_eq!(all[0].id, "parakeet-tdt-0.6b-v3");
    assert!(m.descriptor("parakeet-tdt-0.6b-v3").is_some());
    assert!(m.descriptor("whisper").is_none());
    let list = m.list(&vec![false]);
    assert_eq!(list[0].progress, 0);
    assert!(!list[0].downloading);
    m.set_progress("parakeet-tdt-0.6b-v3", 42);
    let list = m.list(&vec![false]);
    assert_eq!(list[0].progress, 42);
    assert!(list[0].downloading);
    m.set_progress("parakeet-tdt-0.6b-v3", 100);
    let list = m.list(&vec![true]);
    assert!(list[0].downloaded);
    assert!(!list[0].downloading);
    m.clear_progress("parakeet-tdt-0.6b-v3");
    assert_eq!(m.progress_of("parakeet-tdt-0.6b-v3"), 0);
}

fn r(task: Task, announce: Option<State>) -> Reaction {
    Reaction { task, announce }
}

#[test]
fn pipeline_happy_path() {
    let mut p = Pipeline::new(true);
    assert_eq!(p.current_state(), State::Idle);
    assert_eq!(p.handle(Event::HotkeyPressed), r(Task::StartCapture, None));
    assert_eq!(p.handle(Event::CaptureStarted), r(Task::Nothing, Some(State::Recording)));
    assert_eq!(p.handle(Event::HotkeyPressed), r(Task::Nothing, None));
    assert_eq!(p.handle(Event::HotkeyReleased), r(Task::StopCapture, Some(State::Transcribing)));
    assert_eq!(p.handle(Event::CaptureStopped { samples: 48000 }), r(Task::Convert, None));
    assert_eq!(p.handle(Event::Converted { samples: 16000 }), r(Task::TrimSilence, None));
    assert_eq!(p.handle(Event::Trimmed { samples: 9000 }), r(Task::Resample, None));
    assert_eq!(p.handle(Event::Resampled { samples: 3000 }), r(Task::PrepareModel, None));
    assert_eq!(p.handle(Event::ModelReady), r(Task::Transcribe, None));
    assert_eq!(p.handle(Event::Transcribed { empty: false }), r(Task::SaveTranscript, None));
    assert_eq!(p.handle(Event::Saved), r(Task::Paste, Some(State::Pasting)));
    assert_eq!(p.handle(Event::PasteFinished), r(Task::Nothing, Some(State::Idle)));
    assert_eq!(p.current_state(), State::Idle);
}

#[test]
fn pipeline_silence_returns_to_idle() {
    let mut p = Pipeline::new(true);
    p.handle(Event::HotkeyPressed);
    p.handle(Event::CaptureStarted);
    p.handle(Event::HotkeyReleased);
    p.handle(Event::CaptureStopped { samples: 100 });
    p.handle(Event::Converted { samples: 33 });
    assert_eq!(p.handle(Event::Trimmed { samples: 0 }), r(Task::Nothing, Some(State::Idle)));
    assert_eq!(p.handle(Event::HotkeyPressed), r(Task::StartCapture, None));
}

#[test]
fn pipeline_no_speech_after_resampling_returns_to_idle() {
    let mut p = Pipeline::new(true);
    p.handle(Event::HotkeyPressed);
    p.handle(Event::CaptureStarted);
    p.handle(Event::HotkeyReleased);
    p.handle(Event::CaptureStopped { samples: 100 });
    p.handle(Event::Converted { samples: 100 });
    p.handle(Event::Trimmed { samples: 2 });
    assert_eq!(p.handle(Event::Resampled { samples: 0 }), r(Task::Nothing, Some(State::Idle)));
    assert_eq!(p.current_state(), State::Idle);
}

#[test]
fn pipeline_error_is_final() {
    let mut p = Pipeline::new(true);
    p.handle(Event::HotkeyPressed);
    p.handle(Event::CaptureStarted);
    p.handle(Event::HotkeyReleased);
    assert_eq!(p.handle(Event::CaptureStopFailed), r(Task::Nothing, Some(State::Error)));
    assert_eq!(p.handle(Event::HotkeyPressed), r(Task::Nothing, None));
    assert_eq!(p.handle(Event::HotkeyReleased), r(Task::Nothing, None));
    assert_eq!(p.handle(Event::ModelReady), r(Task::Nothing, None));
    assert_eq!(p.current_state(), State::Error);
}

#[test]
fn pipeline_failed_capture_announces_error_but_stays_idle() {
    let mut p = Pipeline::new(true);
    p.handle(Event::HotkeyPressed);
    assert_eq!(p.handle(Event::CaptureFailed), r(Task::Nothing, Some(State::Error)));
    assert_eq!(p.current_state(), State::Idle);
    assert_eq!(p.handle(Event::HotkeyPressed), r(Task::StartCapture, None));
}

#[test]
fn pipeline_disable_drops_session() {
    let mut p = Pipeline::new(true);
    p.handle(Event::HotkeyPressed);
    p.handle(Event::CaptureStarted);
    assert!(p.disable());
    assert!(!p.disable());
    assert_eq!(p.handle(Event::HotkeyReleased), r(Task::Nothing, None));
    assert_eq!(p.current_state(), State::Recording);
    p.enable();
}

#[test]
fn state_names() {
    assert_eq!(State::Idle.as_str(), "idle");
    assert_eq!(State::Recording.as_str(), "recording");
    assert_eq!(State::Transcribing.as_str(), "transcribing");
    assert_eq!(State::Pasting.as_str(), "pasting");
    assert_eq!(State::Error.as_str(), "error");
}

#[test]
fn paste_choices() {
    assert_eq!(paste_method("clipboard"), PasteMethod::ClipboardOnly);
    assert_eq!(paste_method("auto"), PasteMethod::Paste);
    assert_eq!(paste_method("anything"), PasteMethod::Paste);
    assert_eq!(
        paste_keystrokes(Platform::MacOs),
        vec![(PasteKey::Meta, true), (PasteKey::V, true), (PasteKey::V, false), (PasteKey::Meta, false)]
    );
    assert_eq!(paste_keystrokes(Platform::Windows)[0], (PasteKey::Control, true));
}

#[test]
fn data_dir_per_platform() {
    let home = Some("/home/ola".to_string());
    assert_eq!(
        dirs_app_data(Platform::Linux, home.clone(), None, None),
        Some(vec!["/home/ola".to_string(), ".local".to_string(), "share".to_string(), "gadaj".to_string()])
    );
    assert_eq!(
        dirs_app_data(Platform::Linux, home.clone(), None, Some("/data".to_string())),
        Some(vec!["/data".to_string(), "gadaj".to_string()])
    );
    assert_eq!(
        dirs_app_data(Platform::MacOs, home.clone(), None, None),
        Some(vec![
            "/home/ola".to_string(),
            "Library".to_string(),
            "Application Support".to_string(),
            "pl.gadaj.app".to_string()
        ])
    );
    assert_eq!(dirs_app_data(Platform::Windows, home, None, None), None);
    assert_eq!(
        dirs_app_data(Platform::Windows, None, Some("C:\\AppData".to_string()), None),
        Some(vec!["C:\\AppData".to_string(), "pl.gadaj.app".to_string()])
    );
}

#[test]
fn model_file_size_rule() {
    assert!(!gadaj::models::is_valid_model_size(1024 * 1024));
    assert!(gadaj::models::is_valid_model_size(1024 * 1024 + 1));
    assert!(!gadaj::models::is_valid_model_size(0));
}

#[test]
fn model_to_load_follows_engine_and_catalogue() {
    let m = ModelManager::new();
    assert!(matches!(m.model_to_load(true, "parakeet-tdt-0.6b-v3"), ModelLoad::AlreadyLoaded));
    assert!(matches!(m.model_to_load(true, "whisper"), ModelLoad::AlreadyLoaded));
    match m.model_to_load(false, "parakeet-tdt-0.6b-v3") {
        ModelLoad::Load(d) => {
            assert_eq!(d.id, "parakeet-tdt-0.6b-v3");
            assert!(d.filename.ends_with(".gguf"));
        }
        other => panic!("expected a model to load, got {:?}", other),
    }
    assert!(matches!(m.model_to_load(false, "whisper"), ModelLoad::Unknown));
}
