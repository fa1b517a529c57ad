use codex_accounts::http::HttpStatus;

#[test]
fn status_numbers_run_from_100_to_999() {
    assert_eq!(HttpStatus::from_u16(0), None);
    assert_eq!(HttpStatus::from_u16(99), None);
    assert_eq!(HttpStatus::from_u16(100).map(|s| s.as_u16()), Some(100));
    assert_eq!(HttpStatus::from_u16(429).map(|s| s.as_u16()), Some(429));
    assert_eq!(HttpStatus::from_u16(999).map(|s| s.as_u16()), Some(999));
    assert_eq!(HttpStatus::from_u16(1000), None);
    assert_eq!(HttpStatus::from_u16(u16::MAX), None);
}

#[test]
fn status_agrees_with_reqwest_on_every_number() {
    for code in 0..=u16::MAX {
        let ours = HttpStatus::from_u16(code);
        let theirs = reqwest::StatusCode::from_u16(code).ok();
        assert_eq!(ours.is_some(), theirs.is_some());
        if let (Some(ours), Some(theirs)) = (ours, theirs) {
            assert_eq!(ours.as_u16(), theirs.as_u16());
            assert_eq!(ours.is_success(), theirs.is_success());
            assert_eq!(ours.describe(), theirs.to_string());
        }
    }
}

#[test]
fn status_reads_as_number_and_reason() {
    assert_eq!(HttpStatus::from_u16(200).unwrap().describe(), "200 OK");
    assert_eq!(HttpStatus::from_u16(404).unwrap().describe(), "404 Not Found");
    assert_eq!(HttpStatus::from_u16(429).unwrap().describe(), "429 Too Many Requests");
    assert_eq!(HttpStatus::from_u16(999).unwrap().describe(), "999 <unknown status code>");
}

#[test]
fn success_is_the_two_hundreds() {
    assert!(!HttpStatus::from_u16(199).unwrap().is_success());
    assert!(HttpStatus::from_u16(200).unwrap().is_success());
    assert!(HttpStatus::from_u16(299).unwrap().is_success());
    assert!(!HttpStatus::from_u16(300).unwrap().is_success());
}
