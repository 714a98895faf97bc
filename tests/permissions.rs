use mac_permissions::{
    encode_identifier, has_permission, status_request, Permission, PermissionError,
    PermissionStatus,
};

const ALL: [Permission; 12] = [
    Permission::Calendar,
    Permission::Contacts,
    Permission::FullDiskAccess,
    Permission::Photos,
    Permission::Reminders,
    Permission::Accessibility,
    Permission::Bluetooth,
    Permission::Camera,
    Permission::InputMonitoring,
    Permission::Microphone,
    Permission::ScreenCapture,
    Permission::SpeechRecognition,
];

fn ok(text: &str) -> Result<String, PermissionError> {
    Ok(text.to_owned())
}

#[test]
fn identifiers_are_the_canonical_spellings() {
    assert_eq!(Permission::Calendar.to_str(), "calendar");
    assert_eq!(Permission::Contacts.to_str(), "contacts");
    assert_eq!(Permission::FullDiskAccess.to_str(), "full-disk-access");
    assert_eq!(Permission::Photos.to_str(), "photos");
    assert_eq!(Permission::Reminders.to_str(), "reminders");
    assert_eq!(Permission::Accessibility.to_str(), "accessibility");
    assert_eq!(Permission::Bluetooth.to_str(), "bluetooth");
    assert_eq!(Permission::Camera.to_str(), "camera");
    assert_eq!(Permission::InputMonitoring.to_str(), "input-monitoring");
    assert_eq!(Permission::Microphone.to_str(), "microphone");
    assert_eq!(Permission::ScreenCapture.to_str(), "screen-capture");
    assert_eq!(Permission::SpeechRecognition.to_str(), "speech-recognition");
}

#[test]
fn identifiers_are_nonempty_and_distinct() {
    for (i, a) in ALL.iter().enumerate() {
        assert!(!a.to_str().is_empty());
        for (j, b) in ALL.iter().enumerate() {
            assert_eq!(i == j, a.to_str() == b.to_str());
        }
    }
}

#[test]
fn canonical_phrases_normalize_to_their_status() {
    assert_eq!(PermissionStatus::from("authorized"), PermissionStatus::Authorized);
    assert_eq!(PermissionStatus::from("denied"), PermissionStatus::Denied);
    assert_eq!(PermissionStatus::from("restricted"), PermissionStatus::Restricted);
    assert_eq!(PermissionStatus::from("limited"), PermissionStatus::Limited);
    assert_eq!(PermissionStatus::from("not determined"), PermissionStatus::NotDetermined);
}

#[test]
fn unrecognized_text_normalizes_to_not_determined() {
    for text in [
        "",
        "AUTHORIZED",
        "Authorized",
        "maybe",
        " authorized",
        "authorized ",
        "authorize",
        "not_determined",
        "deniedx",
        "autorisé",
    ] {
        assert_eq!(PermissionStatus::from(text), PermissionStatus::NotDetermined, "{text:?}");
    }
}

#[test]
fn has_permission_only_for_authorized_success() {
    assert!(has_permission(&ok("authorized")));
    assert!(!has_permission(&ok("denied")));
    assert!(!has_permission(&ok("restricted")));
    assert!(!has_permission(&ok("limited")));
    assert!(!has_permission(&ok("not determined")));
    assert!(!has_permission(&ok("AUTHORIZED")));
    assert!(!has_permission(&ok("")));
    assert!(!has_permission(&Err(PermissionError::Encoding)));
}

#[test]
fn has_permission_agrees_with_normalization() {
    for text in ["authorized", "denied", "restricted", "limited", "not determined", "x"] {
        let expected = PermissionStatus::from(text) == PermissionStatus::Authorized;
        assert_eq!(has_permission(&ok(text)), expected);
    }
}

#[test]
fn encode_identifier_appends_terminator() {
    assert_eq!(encode_identifier("camera"), Ok(b"camera\0".to_vec()));
    assert_eq!(encode_identifier(""), Ok(vec![0u8]));
    assert_eq!(encode_identifier("é"), Ok(vec![0xc3u8, 0xa9, 0]));
}

#[test]
fn encode_identifier_rejects_interior_nul() {
    assert_eq!(encode_identifier("cam\0era"), Err(PermissionError::Encoding));
    assert_eq!(encode_identifier("\0"), Err(PermissionError::Encoding));
    assert_eq!(encode_identifier("camera\0"), Err(PermissionError::Encoding));
}

#[test]
fn status_request_is_identifier_as_c_string() {
    for p in ALL {
        let mut expected = p.to_str().as_bytes().to_vec();
        expected.push(0);
        assert_eq!(status_request(p), Ok(expected));
    }
    assert_eq!(status_request(Permission::ScreenCapture), Ok(b"screen-capture\0".to_vec()));
}

#[test]
fn repeated_queries_give_the_same_request_and_verdict() {
    for p in ALL {
        assert_eq!(status_request(p), status_request(p));
    }
    let outcome = ok("authorized");
    assert_eq!(has_permission(&outcome), has_permission(&outcome));
}

#[test]
fn camera_authorized_scenario() {
    assert_eq!(status_request(Permission::Camera), Ok(b"camera\0".to_vec()));
    let outcome = ok("authorized");
    assert_eq!(outcome.as_deref(), Ok("authorized"));
    assert!(has_permission(&outcome));
}

#[test]
fn microphone_denied_scenario() {
    assert_eq!(status_request(Permission::Microphone), Ok(b"microphone\0".to_vec()));
    assert!(!has_permission(&ok("denied")));
}

#[test]
fn bluetooth_not_determined_scenario() {
    assert_eq!(status_request(Permission::Bluetooth), Ok(b"bluetooth\0".to_vec()));
    let outcome = ok("not determined");
    assert!(!has_permission(&outcome));
    assert_eq!(
        PermissionStatus::from(outcome.as_deref().unwrap()),
        PermissionStatus::NotDetermined
    );
}

#[test]
fn accessibility_unknown_state_scenario() {
    assert_eq!(status_request(Permission::Accessibility), Ok(b"accessibility\0".to_vec()));
    let outcome = ok("unknown_state");
    assert!(outcome.is_ok());
    assert_eq!(
        PermissionStatus::from(outcome.as_deref().unwrap()),
        PermissionStatus::NotDetermined
    );
    assert!(!has_permission(&outcome));
}
