use nixup::remote::{Remote, RemoteParseError};

#[test]
fn parses_valid_specifier() {
    let r = Remote::from_str("desktop:home-desktop").unwrap();
    assert_eq!(r.target_host, "desktop");
    assert_eq!(r.remote_name, "home-desktop");
}

#[test]
fn parses_single_character_sides() {
    let r = Remote::from_str("a:b").unwrap();
    assert_eq!(r.target_host, "a");
    assert_eq!(r.remote_name, "b");
}

#[test]
fn splits_at_first_separator_only() {
    let r = Remote::from_str("host:name:extra").unwrap();
    assert_eq!(r.target_host, "host");
    assert_eq!(r.remote_name, "name:extra");
}

#[test]
fn rejects_empty_remote_name() {
    let e = Remote::from_str("novalue:").unwrap_err();
    assert_eq!(e, RemoteParseError::EmptyRemoteName);
}

#[test]
fn rejects_missing_separator() {
    let e = Remote::from_str("noColon").unwrap_err();
    assert_eq!(e, RemoteParseError::MissingSeparator);
}

#[test]
fn rejects_empty_target_host() {
    let e = Remote::from_str(":name").unwrap_err();
    assert_eq!(e, RemoteParseError::EmptyTargetHost);
}

#[test]
fn rejects_lone_separator() {
    let e = Remote::from_str(":").unwrap_err();
    assert_eq!(e, RemoteParseError::EmptyTargetHost);
}

#[test]
fn rejects_empty_input() {
    let e = Remote::from_str("").unwrap_err();
    assert_eq!(e, RemoteParseError::MissingSeparator);
}

#[test]
fn accepts_non_ascii_names() {
    let r = Remote::from_str("büro:außenstelle").unwrap();
    assert_eq!(r.target_host, "büro");
    assert_eq!(r.remote_name, "außenstelle");
}
