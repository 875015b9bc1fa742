use unix_socket::addr::{sockaddr_un, sun_path_len, sun_path_offset};
use unix_socket::fd::recv_from_result;
use unix_socket::{AddressKind, Error, Platform, RawSockAddr, SocketAddr};

fn decode(path: &[u8], platform: Platform) -> SocketAddr {
    let (raw, len) = sockaddr_un(path).unwrap();
    SocketAddr::new(0, 0, raw, len, platform).unwrap()
}

fn zeroed(family: u16) -> RawSockAddr {
    RawSockAddr { family, path: vec![0; sun_path_len()] }
}

#[test]
fn long_path() {
    let socket_path = "/tmp/unix_socket.1b2c3d/asdfasdfasdfasdfasdfasdfasdfasdfasdfasdfasdfasdfasdfasd\
                       fasdfasasdfasdfasdasdfasdfasdfadfasdfasdfasdfasdfasdf";
    match sockaddr_un(socket_path.as_bytes()) {
        Err(ref e) if e.is_invalid_input() => {}
        Err(e) => panic!("unexpected error {:?}", e),
        Ok(_) => panic!("unexpected success"),
    }
}

#[test]
fn pathname_encoding_layout() {
    let (raw, len) = sockaddr_un(b"/tmp/sock").unwrap();
    assert_eq!(raw.family, 1);
    assert_eq!(raw.path.len(), sun_path_len());
    assert_eq!(&raw.path[..9], b"/tmp/sock");
    assert!(raw.path[9..].iter().all(|&b| b == 0));
    assert_eq!(len as usize, sun_path_offset() + 9 + 1);
    assert_eq!(len, 12);
}

#[test]
fn abstract_encoding_layout() {
    let (raw, len) = sockaddr_un(b"\0the path").unwrap();
    assert_eq!(&raw.path[..9], b"\0the path");
    assert_eq!(len, 11);
}

#[test]
fn empty_path_is_unnamed() {
    let (raw, len) = sockaddr_un(b"").unwrap();
    assert_eq!(len, 2);
    let addr = SocketAddr::new(0, 0, raw, len, Platform::Linux).unwrap();
    assert!(matches!(addr.address(), AddressKind::Unnamed));
}

#[test]
fn pathname_round_trip() {
    for platform in [Platform::Linux, Platform::Other] {
        let addr = decode(b"/tmp/sock", platform);
        match addr.address() {
            AddressKind::Pathname(p) => assert_eq!(p, b"/tmp/sock"),
            other => panic!("unexpected {:?}", other),
        }
    }
    let longest = vec![b'a'; sun_path_len() - 1];
    match decode(&longest, Platform::Linux).address() {
        AddressKind::Pathname(p) => assert_eq!(p, &longest[..]),
        other => panic!("unexpected {:?}", other),
    }
}

#[test]
fn abstract_round_trip() {
    let addr = decode(b"\0the path", Platform::Linux);
    match addr.address() {
        AddressKind::Abstract(b) => assert_eq!(b, b"the path"),
        other => panic!("unexpected {:?}", other),
    }
    let mut longest = vec![b'x'; sun_path_len() - 1];
    longest[0] = 0;
    match decode(&longest, Platform::Linux).address() {
        AddressKind::Abstract(b) => assert_eq!(b, &longest[1..]),
        other => panic!("unexpected {:?}", other),
    }
}

#[test]
fn abstract_is_unnamed_off_linux() {
    let addr = decode(b"\0the path", Platform::Other);
    assert!(matches!(addr.address(), AddressKind::Unnamed));
}

#[test]
fn oversized_paths_rejected() {
    let exact = vec![b'a'; sun_path_len()];
    assert_eq!(sockaddr_un(&exact).unwrap_err(), Error::PathTooLong);
    let over = vec![b'a'; sun_path_len() + 1];
    assert_eq!(sockaddr_un(&over).unwrap_err(), Error::PathTooLong);

    let mut abstract_exact = vec![b'a'; sun_path_len()];
    abstract_exact[0] = 0;
    assert_eq!(sockaddr_un(&abstract_exact).unwrap_err(), Error::PathTooLong);
    let mut abstract_over = vec![b'a'; sun_path_len() + 1];
    abstract_over[0] = 0;
    let e = sockaddr_un(&abstract_over).unwrap_err();
    assert_eq!(e, Error::AbstractPathTooLong);
    assert!(e.is_invalid_input());
}

#[test]
fn wrong_family_rejected() {
    let e = SocketAddr::new(0, 0, zeroed(2), 12, Platform::Linux).unwrap_err();
    assert_eq!(e, Error::NotUnixSocket);
    assert!(e.is_invalid_input());
}

#[test]
fn failed_call_keeps_errno() {
    let e = SocketAddr::new(-1, 9, zeroed(1), 110, Platform::Linux).unwrap_err();
    assert_eq!(e, Error::Os(9));
    assert!(!e.is_invalid_input());
}

#[test]
fn zeroed_length_sixteen_address() {
    let other = SocketAddr::new(0, 0, zeroed(1), 16, Platform::Other).unwrap();
    assert!(matches!(other.address(), AddressKind::Unnamed));
    let linux = SocketAddr::new(0, 0, zeroed(1), 16, Platform::Linux).unwrap();
    match linux.address() {
        AddressKind::Abstract(b) => assert_eq!(b, &[0u8; 13][..]),
        other => panic!("unexpected {:?}", other),
    }
}

#[test]
fn clone_keeps_address() {
    let addr = decode(b"/tmp/sock", Platform::Linux);
    let copy = addr.clone();
    match copy.address() {
        AddressKind::Pathname(p) => assert_eq!(p, b"/tmp/sock"),
        other => panic!("unexpected {:?}", other),
    }
}

#[test]
fn recv_from_counts() {
    let (raw, len) = sockaddr_un(b"/tmp/sock1").unwrap();
    let (n, from) = recv_from_result(11, 0, raw, len, Platform::Linux).unwrap();
    assert_eq!(n, 11);
    match from.address() {
        AddressKind::Pathname(p) => assert_eq!(p, b"/tmp/sock1"),
        other => panic!("unexpected {:?}", other),
    }

    let (raw, len) = sockaddr_un(b"/tmp/sock1").unwrap();
    let (n, _) = recv_from_result(0, 0, raw, len, Platform::Linux).unwrap();
    assert_eq!(n, 0);

    let e = recv_from_result(-1, 11, zeroed(0), 0, Platform::Linux).unwrap_err();
    assert_eq!(e, Error::Os(11));

    let e = recv_from_result(3, 0, zeroed(0), 0, Platform::Linux).unwrap_err();
    assert_eq!(e, Error::NotUnixSocket);
}

#[test]
fn layout_from_libc() {
    assert_eq!(sun_path_len(), 108);
    assert_eq!(sun_path_offset(), 2);
}

#[test]
fn invalid_input_messages() {
    assert_eq!(Error::AbstractPathTooLong.message(), "path must be no longer than SUN_LEN");
    assert_eq!(Error::PathTooLong.message(), "path must be shorter than SUN_LEN");
    assert_eq!(
        Error::NotUnixSocket.message(),
        "file descriptor did not correspond to a Unix socket"
    );
    assert_eq!(Error::ZeroTimeout.message(), "cannot set a 0 duration timeout");
    assert_eq!(Error::Os(5).message(), "operating system error");
}
