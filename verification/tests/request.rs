use runc_rs::request::{join, path_is_absolute, LaunchRequest, RequestError};

fn strings(items: &[&str]) -> Vec<String> {
    let mut all = Vec::new();
    for item in items {
        all.push(item.to_string());
    }
    all
}

#[test]
fn absolute_paths_start_with_a_slash() {
    assert!(path_is_absolute("/srv/img"));
    assert!(path_is_absolute("/"));
    assert!(!path_is_absolute("srv/img"));
    assert!(!path_is_absolute("./img"));
    assert!(!path_is_absolute(""));
}

#[test]
fn join_keeps_an_absolute_child() {
    assert_eq!(join("/home/user", "/srv/img"), "/srv/img");
}

#[test]
fn join_appends_a_relative_child_after_one_separator() {
    assert_eq!(join("/home/user", "img"), "/home/user/img");
    assert_eq!(join("/home/user/", "img"), "/home/user/img");
    assert_eq!(join("/", "img"), "/img");
    assert_eq!(join("", "img"), "img");
    assert_eq!(join("/home/user", ""), "/home/user/");
}

#[test]
fn join_agrees_with_the_standard_path_join() {
    let cases = [
        ("/home/user", "img"),
        ("/home/user/", "img"),
        ("/home/user", "/srv/img"),
        ("/", "img"),
        ("", "img"),
        ("/srv/img", ".old_root"),
        ("/", ".old_root"),
        ("/home/user", ""),
        ("rel", "a/b"),
    ];
    for (base, child) in cases {
        let expected = std::path::Path::new(base).join(child);
        assert_eq!(join(base, child), expected.to_str().unwrap());
    }
}

#[test]
fn request_keeps_what_it_was_given() {
    let request = LaunchRequest::new(
        "/srv/img",
        Some("10.0.0.5/24".to_string()),
        "/bin/echo".to_string(),
        strings(&["hello", "world"]),
        "/home/user",
    )
    .unwrap();
    assert_eq!(request.root(), "/srv/img");
    assert_eq!(request.address(), Some("10.0.0.5/24"));
    assert!(request.networked());
    assert_eq!(request.command(), "/bin/echo");
    assert_eq!(request.args(), &strings(&["hello", "world"]));
}

#[test]
fn request_resolves_a_relative_root_against_the_current_directory() {
    let request =
        LaunchRequest::new("img", None, "/bin/true".to_string(), Vec::new(), "/home/user").unwrap();
    assert_eq!(request.root(), "/home/user/img");
    assert!(!request.networked());
    assert_eq!(request.address(), None);
}

#[test]
fn old_root_marker_sits_inside_the_root() {
    let request =
        LaunchRequest::new("/srv/img", None, "/bin/true".to_string(), Vec::new(), "/").unwrap();
    assert_eq!(request.old_root_marker(), "/srv/img/.old_root");
    let at_root = LaunchRequest::new("/", None, "/bin/true".to_string(), Vec::new(), "/").unwrap();
    assert_eq!(at_root.old_root_marker(), "/.old_root");
}

#[test]
fn argv_starts_with_the_command_itself() {
    let request = LaunchRequest::new(
        "/srv/img",
        None,
        "/bin/sh".to_string(),
        strings(&["-c", "ip addr show eth0"]),
        "/",
    )
    .unwrap();
    assert_eq!(request.argv(), strings(&["/bin/sh", "-c", "ip addr show eth0"]));
    let bare =
        LaunchRequest::new("/srv/img", None, "/bin/true".to_string(), Vec::new(), "/").unwrap();
    assert_eq!(bare.argv(), strings(&["/bin/true"]));
}

#[test]
fn nul_in_the_root_is_refused() {
    let result = LaunchRequest::new("/srv/\0img", None, "/bin/true".to_string(), Vec::new(), "/");
    assert_eq!(result.err(), Some(RequestError::NulInRoot));
}

#[test]
fn nul_in_the_current_directory_of_a_relative_root_is_refused() {
    let result = LaunchRequest::new("img", None, "/bin/true".to_string(), Vec::new(), "/ho\0me");
    assert_eq!(result.err(), Some(RequestError::NulInRoot));
    // An absolute root does not look at the current directory.
    let absolute =
        LaunchRequest::new("/srv/img", None, "/bin/true".to_string(), Vec::new(), "/ho\0me");
    assert!(absolute.is_ok());
}

#[test]
fn nul_in_the_address_is_refused() {
    let result = LaunchRequest::new(
        "/srv/img",
        Some("10.0.0.5\0/24".to_string()),
        "/bin/true".to_string(),
        Vec::new(),
        "/",
    );
    assert_eq!(result.err(), Some(RequestError::NulInAddress));
}

#[test]
fn nul_in_the_command_is_refused() {
    let result = LaunchRequest::new("/srv/img", None, "/bin/\0true".to_string(), Vec::new(), "/");
    assert_eq!(result.err(), Some(RequestError::NulInCommand));
}

#[test]
fn nul_in_an_argument_is_refused_with_its_index() {
    let result = LaunchRequest::new(
        "/srv/img",
        None,
        "/bin/echo".to_string(),
        strings(&["ok", "b\0ad", "wor\0se"]),
        "/",
    );
    assert_eq!(result.err(), Some(RequestError::NulInArgument { index: 1 }));
}

#[test]
fn the_first_offender_is_reported() {
    let result = LaunchRequest::new(
        "/srv/\0img",
        Some("\0".to_string()),
        "\0".to_string(),
        strings(&["\0"]),
        "/",
    );
    assert_eq!(result.err(), Some(RequestError::NulInRoot));
    let result = LaunchRequest::new(
        "/srv/img",
        Some("\0".to_string()),
        "\0".to_string(),
        strings(&["\0"]),
        "/",
    );
    assert_eq!(result.err(), Some(RequestError::NulInAddress));
    let result =
        LaunchRequest::new("/srv/img", None, "\0".to_string(), strings(&["\0"]), "/");
    assert_eq!(result.err(), Some(RequestError::NulInCommand));
}

#[test]
fn a_root_that_stays_relative_is_refused() {
    for current_dir in ["", "home/user", "."] {
        let result =
            LaunchRequest::new("img", None, "/bin/true".to_string(), Vec::new(), current_dir);
        assert_eq!(result.err(), Some(RequestError::RelativeRoot));
    }
    let empty = LaunchRequest::new("", None, "/bin/true".to_string(), Vec::new(), "");
    assert_eq!(empty.err(), Some(RequestError::RelativeRoot));
}

#[test]
fn an_absolute_root_does_not_need_an_absolute_current_directory() {
    let request =
        LaunchRequest::new("/srv/img", None, "/bin/true".to_string(), Vec::new(), "").unwrap();
    assert_eq!(request.root(), "/srv/img");
}

#[test]
fn a_nul_in_a_relative_root_is_reported_before_its_being_relative() {
    let result = LaunchRequest::new("i\0mg", None, "/bin/true".to_string(), Vec::new(), "rel");
    assert_eq!(result.err(), Some(RequestError::NulInRoot));
}

#[test]
fn a_relative_root_is_reported_before_a_bad_address() {
    let result = LaunchRequest::new(
        "img",
        Some("\0".to_string()),
        "/bin/true".to_string(),
        Vec::new(),
        "rel",
    );
    assert_eq!(result.err(), Some(RequestError::RelativeRoot));
}
