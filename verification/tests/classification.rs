use meeting_auto_pause::pattern::{
    marker_pattern_text, marker_text, LineClassifier, PatternError,
};
use meeting_auto_pause::status::CameraStatus;

fn classifier() -> LineClassifier {
    LineClassifier::new().unwrap()
}

#[test]
fn marker_and_pattern_are_the_expected_texts() {
    assert_eq!(marker_text(), "appEffects: [ControlCenterApp.AppVideoEffects");
    assert_eq!(
        marker_pattern_text(),
        r"appEffects: \[ControlCenterApp\.AppVideoEffects"
    );
}

#[test]
fn pattern_is_the_escaped_marker() {
    assert_eq!(regex::escape(marker_text()), marker_pattern_text());
}

#[test]
fn line_with_marker_is_camera_on() {
    let c = classifier();
    let line = "2024-01-01 10:00:00 ControlCenter: Cameras changed to: appEffects: [ControlCenterApp.AppVideoEffects(bundleID: us.zoom.xos)]";
    assert!(c.is_camera_on(line));
    assert_eq!(c.classify(line), CameraStatus::CameraOn);
}

#[test]
fn marker_alone_is_camera_on() {
    let c = classifier();
    assert!(c.is_camera_on(marker_text()));
}

#[test]
fn marker_at_start_and_at_end_is_camera_on() {
    let c = classifier();
    assert!(c.is_camera_on(&format!("{} and more", marker_text())));
    assert!(c.is_camera_on(&format!("before {}", marker_text())));
}

#[test]
fn line_without_marker_is_camera_off() {
    let c = classifier();
    let line = "2024-01-01 10:05:00 ControlCenter: Cameras changed to: off";
    assert!(!c.is_camera_on(line));
    assert_eq!(c.classify(line), CameraStatus::CameraOff);
}

#[test]
fn empty_line_is_camera_off() {
    let c = classifier();
    assert!(!c.is_camera_on(""));
    assert_eq!(c.classify(""), CameraStatus::CameraOff);
}

#[test]
fn unrelated_content_is_camera_off() {
    let c = classifier();
    assert_eq!(c.classify("kernel: something else entirely"), CameraStatus::CameraOff);
    assert_eq!(c.classify("Cameras changed to: appEffects: []"), CameraStatus::CameraOff);
}

#[test]
fn truncated_marker_is_camera_off() {
    let c = classifier();
    let marker = marker_text();
    assert!(!c.is_camera_on(&marker[..marker.len() - 1]));
    assert!(!c.is_camera_on(&marker[1..]));
}

#[test]
fn dot_in_marker_is_taken_literally() {
    let c = classifier();
    assert!(!c.is_camera_on("appEffects: [ControlCenterAppXAppVideoEffects"));
}

#[test]
fn bracket_in_marker_is_taken_literally() {
    let c = classifier();
    assert!(!c.is_camera_on("appEffects: ControlCenterApp.AppVideoEffects"));
    assert!(!c.is_camera_on("appEffects: CControlCenterApp.AppVideoEffects"));
}

#[test]
fn match_is_case_sensitive() {
    let c = classifier();
    assert!(!c.is_camera_on("appeffects: [controlcenterapp.appvideoeffects"));
}

#[test]
fn classification_never_gives_unknown() {
    let c = classifier();
    for line in ["", "x", marker_text(), "Cameras changed to: off"] {
        assert_ne!(c.classify(line), CameraStatus::Unknown);
    }
}

#[test]
fn classifier_agrees_with_substring_search() {
    let c = classifier();
    let lines = [
        "",
        "appEffects",
        "appEffects: [ControlCenterApp.AppVideoEffects",
        "xx appEffects: [ControlCenterApp.AppVideoEffects yy",
        "appEffects: [ControlCenterApp.AppVideoEffect",
        "appEffects:  [ControlCenterApp.AppVideoEffects",
        "äöü appEffects: [ControlCenterApp.AppVideoEffects ✓",
        "äöü ✓",
    ];
    for line in lines {
        assert_eq!(c.is_camera_on(line), line.contains(marker_text()));
    }
}

#[test]
fn compiled_marker_pattern_makes_a_classifier() {
    let made = LineClassifier::from_compiled(regex::Regex::new(marker_pattern_text()));
    let c = made.unwrap();
    assert!(c.is_camera_on(marker_text()));
    assert!(!c.is_camera_on("off"));
}

#[test]
fn syntax_error_is_reported() {
    let made = LineClassifier::from_compiled(regex::Regex::new("appEffects: ["));
    match made {
        Err(PatternError::Syntax(text)) => assert!(!text.is_empty()),
        _ => panic!("expected a syntax error"),
    }
}

#[test]
fn size_error_is_reported() {
    let compiled = regex::RegexBuilder::new(r"\w{100}").size_limit(10).build();
    let made = LineClassifier::from_compiled(compiled);
    match made {
        Err(PatternError::TooBig(limit)) => assert_eq!(limit, 10),
        _ => panic!("expected a size error"),
    }
}

#[test]
fn marker_pattern_compiles() {
    assert!(regex::Regex::new(marker_pattern_text()).is_ok());
    assert!(LineClassifier::new().is_ok());
}
