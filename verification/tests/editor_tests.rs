use flashcut::editor::{
    check_export_request, export_refusal_message, layout_class, opens_file_dialog,
    participants_label, same_text, session_label, theater_button_label, ExportRefusal, check_video_file, ends_with_text, starts_with_text};

#[test]
fn dialog_keys() {
    assert!(opens_file_dialog("Enter"));
    assert!(opens_file_dialog(" "));
    assert!(!opens_file_dialog("Escape"));
    assert!(!opens_file_dialog("enter"));
    assert!(!opens_file_dialog(""));
    assert!(!opens_file_dialog("  "));
}

#[test]
fn same_text_compares_characters() {
    assert!(same_text("äbc", "äbc"));
    assert!(!same_text("abc", "abd"));
    assert!(!same_text("ab", "abc"));
}

#[test]
fn export_request_checks_file_first() {
    assert_eq!(check_export_request(false, false), Err(ExportRefusal::NoFile));
    assert_eq!(check_export_request(false, true), Err(ExportRefusal::NoFile));
    assert_eq!(check_export_request(true, false), Err(ExportRefusal::EmptyRange));
    assert_eq!(check_export_request(true, true), Ok(()));
    assert_eq!(export_refusal_message(ExportRefusal::NoFile), "No file selected");
    assert_eq!(export_refusal_message(ExportRefusal::EmptyRange), "Trim range must be positive");
}

#[test]
fn layout_texts() {
    assert_eq!(layout_class(false), "editor-layout");
    assert_eq!(layout_class(true), "editor-layout theater-mode");
    assert_eq!(theater_button_label(false), "Theater");
    assert_eq!(theater_button_label(true), "Exit Theater");
}

#[test]
fn session_panel_texts() {
    assert_eq!(session_label(&Some("ab12cd34".to_string())), "Session: ab12cd34");
    assert_eq!(session_label(&None), "Session: ");
    assert_eq!(participants_label(0), "Participants: 0");
    assert_eq!(participants_label(12), "Participants: 12");
    assert_eq!(participants_label(usize::MAX), format!("Participants: {}", usize::MAX));
}

#[test]
fn video_files_are_accepted_by_type_or_name() {
    assert_eq!(check_video_file("video/mp4", "clip.bin"), Ok(()));
    assert_eq!(check_video_file("video/quicktime", ""), Ok(()));
    assert_eq!(check_video_file("", "holiday.mp4"), Ok(()));
    assert_eq!(check_video_file("application/octet-stream", "a.webm"), Ok(()));
    assert_eq!(check_video_file("", "b.mov"), Ok(()));
}

#[test]
fn other_files_are_refused_with_a_message() {
    let refused = Err("Nur Video-Dateien unterstützt: MP4, WebM, MOV".to_string());
    assert_eq!(check_video_file("image/png", "photo.png"), refused);
    assert_eq!(check_video_file("text/plain", "notes.mp4.txt"), refused);
    assert_eq!(check_video_file("videos", "x.MP4"), refused);
    assert_eq!(check_video_file("", ""), refused);
}

#[test]
fn prefix_and_suffix_checks() {
    assert!(starts_with_text("video/webm", "video/"));
    assert!(starts_with_text("abc", ""));
    assert!(!starts_with_text("vid", "video/"));
    assert!(!starts_with_text("audio/video/", "video/"));
    assert!(ends_with_text("a.mov", ".mov"));
    assert!(ends_with_text("äö.mov", ".mov"));
    assert!(!ends_with_text("mov", ".mov"));
    assert!(!ends_with_text("a.mov ", ".mov"));
}
