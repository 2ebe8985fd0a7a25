use swww_proto::connect::{connection_target, parse_fd, ConnectError, ConnectTarget};
use swww_proto::path::join;

fn path_of(target: Result<ConnectTarget, ConnectError>) -> Vec<u8> {
    match target {
        Ok(ConnectTarget::Path(path)) => path,
        other => panic!("no path: {:?}", other),
    }
}

#[test]
fn parse_fd_takes_decimal_numbers() {
    assert_eq!(parse_fd(b"0"), Some(0));
    assert_eq!(parse_fd(b"5"), Some(5));
    assert_eq!(parse_fd(b"42"), Some(42));
    assert_eq!(parse_fd(b"007"), Some(7));
    assert_eq!(parse_fd(b"+7"), Some(7));
    assert_eq!(parse_fd(b"-1"), Some(-1));
    assert_eq!(parse_fd(b"-0"), Some(0));
    assert_eq!(parse_fd(b"1234567890"), Some(1234567890));
}

#[test]
fn parse_fd_at_the_limits() {
    assert_eq!(parse_fd(b"2147483647"), Some(i32::MAX));
    assert_eq!(parse_fd(b"+2147483647"), Some(i32::MAX));
    assert_eq!(parse_fd(b"2147483648"), None);
    assert_eq!(parse_fd(b"-2147483648"), Some(i32::MIN));
    assert_eq!(parse_fd(b"-2147483649"), None);
    assert_eq!(parse_fd(b"00000000002147483647"), Some(i32::MAX));
    assert_eq!(parse_fd(b"99999999999999999999999999999999"), None);
    assert_eq!(parse_fd(b"-99999999999999999999999999999999"), None);
    assert_eq!(parse_fd(b"21474836470"), None);
}

#[test]
fn parse_fd_refuses_what_is_no_number() {
    for text in [
        &b""[..],
        b"-",
        b"+",
        b" 5",
        b"5 ",
        b"5\n",
        b"12a",
        b"a12",
        b"--5",
        b"+-5",
        b"1_000",
        b"0x10",
        b"1.0",
        b"99999999999999999999999999999999x",
        b"\xef\xbc\x95",
    ] {
        assert_eq!(parse_fd(text), None);
    }
}

#[test]
fn parse_fd_agrees_with_the_standard_library() {
    let texts = [
        "0", "-0", "+0", "17", "-17", "+17", "", "-", "+", "2147483647", "2147483648",
        "-2147483648", "-2147483649", "0000", "1e3", "١٢٣", "3 ", "4294967295", "4294967296",
    ];
    for text in texts {
        assert_eq!(parse_fd(text.as_bytes()), text.parse::<i32>().ok());
    }
}

#[test]
fn inherited_socket_comes_first() {
    let target = connection_target(Some(b"5"), Some(b"wayland-1"), Some(b"/run/user/1000"));
    assert!(matches!(target, Ok(ConnectTarget::Inherited(5))));
    let target = connection_target(Some(b"12"), None, None);
    assert!(matches!(target, Ok(ConnectTarget::Inherited(12))));
}

#[test]
fn invalid_inherited_socket_is_an_error() {
    let target = connection_target(Some(b"five"), Some(b"wayland-1"), Some(b"/run/user/1000"));
    assert!(matches!(target, Err(ConnectError::InvalidFd)));
    let target = connection_target(Some(b""), Some(b"/tmp/wayland-1"), None);
    assert!(matches!(target, Err(ConnectError::InvalidFd)));
}

#[test]
fn absolute_display_is_used_as_it_is() {
    let target = connection_target(None, Some(b"/tmp/wayland-7"), Some(b"/run/user/1000"));
    assert_eq!(path_of(target), b"/tmp/wayland-7");
    let target = connection_target(None, Some(b"/tmp/wayland-7"), None);
    assert_eq!(path_of(target), b"/tmp/wayland-7");
    let target = connection_target(None, Some(b"/"), Some(b"relative"));
    assert_eq!(path_of(target), b"/");
}

#[test]
fn relative_display_is_looked_up_in_the_runtime_directory() {
    let target = connection_target(None, Some(b"wayland-1"), Some(b"/run/user/1000"));
    assert_eq!(path_of(target), b"/run/user/1000/wayland-1");
    let target = connection_target(None, Some(b"wayland-1"), Some(b"/run/user/1000/"));
    assert_eq!(path_of(target), b"/run/user/1000/wayland-1");
    let target = connection_target(None, Some(b"a/b"), Some(b"/"));
    assert_eq!(path_of(target), b"/a/b");
    let target = connection_target(None, Some(b""), Some(b"/run"));
    assert_eq!(path_of(target), b"/run/");
}

#[test]
fn unresolved_environment_names_the_variable() {
    let target = connection_target(None, None, Some(b"/run/user/1000"));
    assert!(matches!(target, Err(ConnectError::DisplayNotSet)));
    let target = connection_target(None, Some(b"wayland-1"), None);
    assert!(matches!(target, Err(ConnectError::RuntimeDirNotSet)));
    let target = connection_target(None, Some(b"wayland-1"), Some(b"run/user/1000"));
    assert!(matches!(target, Err(ConnectError::RuntimeDirNotAbsolute)));
    let target = connection_target(None, Some(b"wayland-1"), Some(b""));
    assert!(matches!(target, Err(ConnectError::RuntimeDirNotAbsolute)));
}

#[test]
fn connect_error_messages() {
    assert_eq!(ConnectError::InvalidFd.message(), "invalid fd in WAYLAND_SOCKET env var");
    assert_eq!(
        ConnectError::DisplayNotSet.message(),
        "failed to detect wayland compositor: WAYLAND_DISPLAY not set"
    );
    assert_eq!(
        ConnectError::RuntimeDirNotSet.message(),
        "failed to detect wayland compositor: XDG_RUNTIME_DIR not set"
    );
    assert_eq!(
        ConnectError::RuntimeDirNotAbsolute.message(),
        "failed to detect wayland compositor: socket_path is not absolute"
    );
}

#[test]
fn join_agrees_with_the_standard_library() {
    let bases = ["", "/", "/run", "/run/", "run", "run/", "a/b", "//"];
    let rests = ["", "x", "x/y", "/abs", "/", "x/"];
    for base in bases {
        for rest in rests {
            let expected = std::path::Path::new(base).join(rest);
            assert_eq!(
                join(base.as_bytes(), rest.as_bytes()),
                expected.to_str().unwrap().as_bytes(),
                "{:?} joined with {:?}",
                base,
                rest
            );
        }
    }
}
