use league_record::recordings::{compare_time, get_recordings, is_recording_name};
use std::cmp::Ordering;

#[test]
fn mp4_files_are_selected_in_order() {
    let names: Vec<String> = vec![
        "2023-01-01_10-00-00.mp4".to_string(),
        "notes.txt".to_string(),
        "archive.tar.mp4".to_string(),
        String::new(),
        ".mp4".to_string(),
        "clip.mp3".to_string(),
        "2023-01-02_11-30-00.mp4".to_string(),
    ];
    let recs = get_recordings(&names);
    assert_eq!(
        recs,
        vec![
            "2023-01-01_10-00-00.mp4".to_string(),
            "archive.tar.mp4".to_string(),
            "2023-01-02_11-30-00.mp4".to_string(),
        ]
    );
}

#[test]
fn empty_listing_gives_no_recordings() {
    let names: Vec<String> = Vec::new();
    assert!(get_recordings(&names).is_empty());
}

#[test]
fn recording_name_edge_cases() {
    assert!(is_recording_name("x.mp4"));
    assert!(is_recording_name("a.b.mp4"));
    assert!(!is_recording_name(".mp4"));
    assert!(!is_recording_name("mp4"));
    assert!(!is_recording_name(""));
    assert!(!is_recording_name("video.mp3"));
    assert!(!is_recording_name("video.mp4x"));
}

#[test]
fn newer_recording_orders_first() {
    assert_eq!(compare_time(10, 5), Ordering::Less);
    assert_eq!(compare_time(5, 10), Ordering::Greater);
    assert_eq!(compare_time(7, 7), Ordering::Equal);
}
