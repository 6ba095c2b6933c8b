use media_proxy::listen::{classify_listen_addr, ListenAddr, UNIX_PATH_MAX};

#[test]
fn listen_addresses_are_told_apart() {
    assert_eq!(classify_listen_addr(""), ListenAddr::Empty);
    assert_eq!(classify_listen_addr("/run/proxy.sock"), ListenAddr::UnixSocket);
    assert_eq!(classify_listen_addr("./proxy.sock"), ListenAddr::UnixSocket);
    assert_eq!(classify_listen_addr("/"), ListenAddr::UnixSocket);
    assert_eq!(classify_listen_addr("127.0.0.1:3000"), ListenAddr::Tcp);
    assert_eq!(classify_listen_addr("[::1]:3000"), ListenAddr::Tcp);
    assert_eq!(classify_listen_addr("."), ListenAddr::Tcp);
    assert_eq!(classify_listen_addr("../proxy.sock"), ListenAddr::Tcp);
}

#[test]
fn socket_path_has_a_longest_length() {
    assert_eq!(UNIX_PATH_MAX, 104);
    let longest = format!("/{}", "a".repeat(103));
    assert_eq!(classify_listen_addr(&longest), ListenAddr::UnixSocket);
    let longer = format!("/{}", "a".repeat(104));
    assert_eq!(classify_listen_addr(&longer), ListenAddr::UnixSocketTooLong);
    let relative = format!("./{}", "a".repeat(103));
    assert_eq!(classify_listen_addr(&relative), ListenAddr::UnixSocketTooLong);
}
