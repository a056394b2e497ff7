use launch_focus::server::trim_request;

#[test]
fn a_request_line_is_trimmed_on_both_sides() {
    assert_eq!(trim_request("  Safari \n"), Some("Safari".to_string()));
    assert_eq!(trim_request("Safari"), Some("Safari".to_string()));
    assert_eq!(trim_request("Terminal\r\n"), Some("Terminal".to_string()));
}

#[test]
fn inner_whitespace_belongs_to_the_name() {
    assert_eq!(trim_request(" Google Chrome\n"), Some("Google Chrome".to_string()));
}

#[test]
fn an_empty_line_is_ignored() {
    assert_eq!(trim_request(""), None);
    assert_eq!(trim_request("\n"), None);
    assert_eq!(trim_request(" \t \r\n"), None);
}
