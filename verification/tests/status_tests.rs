use paged::status::parse_status;

#[test]
fn classify_success_range() {
    assert_eq!(parse_status(200), "Success");
    assert_eq!(parse_status(250), "Success");
    assert_eq!(parse_status(299), "Success");
}

#[test]
fn classify_not_found() {
    assert_eq!(parse_status(404), "Not Found");
}

#[test]
fn classify_unknown() {
    assert_eq!(parse_status(0), "Unknown");
    assert_eq!(parse_status(199), "Unknown");
    assert_eq!(parse_status(300), "Unknown");
    assert_eq!(parse_status(403), "Unknown");
    assert_eq!(parse_status(500), "Unknown");
}
