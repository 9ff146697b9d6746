use tamperlog::logverify::verify_log;
use tamperlog::record::header_row;
use tamperlog::sign::sign_data;

fn bytes(s: &str) -> Vec<u8> {
    s.as_bytes().to_vec()
}

fn signed_line(content: &str, key: &[u8]) -> Vec<u8> {
    let mut line = bytes(content);
    line.push(b',');
    line.extend_from_slice(&sign_data(content.as_bytes(), key));
    line
}

#[test]
fn empty_file_has_nothing_to_check() {
    let report = verify_log(&vec![], b"key");
    assert_eq!((report.checked, report.valid, report.errors), (0, 0, 0));
    assert!(report.verified());
}

#[test]
fn header_only_file_has_nothing_to_check() {
    let report = verify_log(&vec![header_row()], b"key");
    assert_eq!((report.checked, report.valid, report.errors), (0, 0, 0));
    assert!(report.verified());
}

#[test]
fn unmodified_log_verifies_with_zero_errors() {
    let key = b"the session key";
    let lines = vec![
        header_row(),
        signed_line("2024-01-01 09:00:00,4,1,ACTIVE,shell,\"build, run\",None", key),
        signed_line("2024-01-01 09:01:00,0,0,IDLE,shell,\"build run\",None", key),
    ];
    let report = verify_log(&lines, key);
    assert_eq!((report.checked, report.valid, report.errors), (2, 2, 0));
    assert!(report.verified());
}

#[test]
fn blank_lines_are_skipped_without_affecting_counts() {
    let key = b"k";
    let lines = vec![
        header_row(),
        vec![],
        signed_line("2024-01-01 09:00:00,1,0,ACTIVE,a,\"t\",None", key),
        bytes("   \t"),
        vec![],
    ];
    let report = verify_log(&lines, key);
    assert_eq!((report.checked, report.valid, report.errors), (1, 1, 0));
    assert!(report.verified());
}

#[test]
fn tampered_app_name_is_reported_as_compromised() {
    let key = b"the session key";
    let good = signed_line("2024-01-01 09:00:00,4,1,ACTIVE,shell,\"build\",None", key);
    let mut tampered = signed_line("2024-01-01 09:01:00,2,0,ACTIVE,shell,\"build\",None", key);
    // Flip one character inside the AppName field, leaving the signature
    // untouched.
    let pos = 31; // the 's' of "shell"
    assert_eq!(tampered[pos], b's');
    tampered[pos] = b'x';
    let lines = vec![header_row(), good, tampered];
    let report = verify_log(&lines, key);
    assert_eq!((report.checked, report.valid, report.errors), (2, 1, 1));
    assert!(!report.verified());
}

#[test]
fn wrong_key_rejects_every_row() {
    let key = b"right key";
    let lines = vec![
        header_row(),
        signed_line("2024-01-01 09:00:00,4,1,ACTIVE,a,\"t\",None", key),
    ];
    let report = verify_log(&lines, b"wrong key");
    assert_eq!((report.checked, report.valid, report.errors), (1, 0, 1));
    assert!(!report.verified());
}

#[test]
fn line_without_comma_is_a_format_error() {
    let key = b"k";
    let lines = vec![
        header_row(),
        bytes("garbage with no separator"),
        signed_line("2024-01-01 09:00:00,1,0,ACTIVE,a,\"t\",None", key),
    ];
    let report = verify_log(&lines, key);
    assert_eq!((report.checked, report.valid, report.errors), (2, 1, 1));
    assert!(!report.verified());
}

#[test]
fn signature_column_is_found_despite_commas_in_content() {
    let key = b"k";
    // The quoted title is stripped of commas by the writer, but the
    // verifier itself only relies on the signature being the last field.
    let content = "ts,1,2,ACTIVE,app,with,many,commas,\"t\",None";
    let lines = vec![header_row(), signed_line(content, key)];
    let report = verify_log(&lines, key);
    assert_eq!((report.checked, report.valid, report.errors), (1, 1, 0));
}
