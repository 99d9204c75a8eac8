use gadaj::settings::Settings;
use gadaj::stt::parakeet::PARAKEET_V3_URL;

#[test]
fn settings_default_values() {
    let s = Settings::default();
    assert!(s.hotkey.is_none());
    assert_eq!(s.model_id, "parakeet-tdt-0.6b-v3");
    assert_eq!(s.language, "auto");
    assert_eq!(s.paste_method, "auto");
    assert_eq!(s.ui_language, "pl");
}

#[test]
fn model_url_looks_valid() {
    assert!(PARAKEET_V3_URL.starts_with("https://"));
    assert!(PARAKEET_V3_URL.contains("huggingface.co"));
    assert!(PARAKEET_V3_URL.ends_with(".gguf"));
}

#[test]
fn ggml_dylibs_present_in_target_debug() {
    // Detects the most common runtime problem: the ggml libraries missing next to the binary.
    let target_debug = std::path::Path::new("target/debug");
    if !target_debug.exists() {
        println!("target/debug does not exist, skipping the runtime check");
        return;
    }
    let required = [
        "libggml.dylib",
        "libggml-base.dylib",
        "libggml-cpu.dylib",
        "libggml-blas.dylib",
    ];
    // the libraries are only required on macOS, recognised by its system version file
    let on_macos = std::path::Path::new("/System/Library/CoreServices/SystemVersion.plist").exists();
    for name in required {
        let p = target_debug.join(name);
        if on_macos {
            assert!(
                p.exists(),
                "missing required library: {} (the build succeeded, but running will fail)",
                p.display()
            );
        }
    }
}
