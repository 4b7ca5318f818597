use league_record::capture::{
    build_recorder_settings, window_client_size, CaptureConfig, Size, WINDOW_CLASS, WINDOW_PROCESS,
    WINDOW_TITLE,
};

fn config() -> CaptureConfig {
    CaptureConfig {
        output_size: Size { width: 1280, height: 720 },
        framerate: 30,
        encoding_quality: 25,
        record_audio: true,
        recordings_path: "videos".to_string(),
        filename_format: "%Y-%m-%d_%H-%M-%S".to_string(),
    }
}

#[test]
fn degenerate_rectangles_give_no_size() {
    assert_eq!(window_client_size(0, 600), None);
    assert_eq!(window_client_size(800, 0), None);
    assert_eq!(window_client_size(-1, -1), None);
    assert_eq!(window_client_size(800, 600), Some(Size { width: 800, height: 600 }));
}

#[test]
fn settings_carry_the_probed_input_size() {
    let s = build_recorder_settings(
        &config(),
        Some(Size { width: 1600, height: 900 }),
        "videos/match-1".to_string(),
    );
    assert_eq!(s.input_size, Size { width: 1600, height: 900 });
    assert_eq!(s.output_size, Size { width: 1280, height: 720 });
    assert_eq!(s.framerate, 30);
    assert_eq!(s.encoding_quality, 25);
    assert!(s.record_audio);
    assert_eq!(s.output_path, "videos/match-1");
    assert_eq!(s.window_title, WINDOW_TITLE);
    assert_eq!(s.window_class, WINDOW_CLASS);
    assert_eq!(s.window_process, WINDOW_PROCESS);
}

#[test]
fn settings_fall_back_to_the_default_resolution() {
    let s = build_recorder_settings(&config(), None, "videos/match-2".to_string());
    assert_eq!(s.input_size, Size { width: 1920, height: 1080 });
}
