use aarambh_net::address::{find_last_colon, parse_address, parse_port};
use aarambh_net::error::BindError;

fn parsed(address: &str) -> Option<(String, u16)> {
    parse_address(address).ok().map(|hp| (hp.host, hp.port))
}

#[test]
fn host_and_port_are_split_at_the_last_colon() {
    assert_eq!(parsed("127.0.0.1:8000"), Some(("127.0.0.1".to_string(), 8000)));
    assert_eq!(parsed("127.0.0.1:0"), Some(("127.0.0.1".to_string(), 0)));
    assert_eq!(parsed("localhost:65535"), Some(("localhost".to_string(), 65535)));
    assert_eq!(parsed("[::1]:8080"), Some(("[::1]".to_string(), 8080)));
    assert_eq!(parsed("a:b:c:7"), Some(("a:b:c".to_string(), 7)));
    assert_eq!(parsed(":80"), Some(("".to_string(), 80)));
}

#[test]
fn a_host_may_hold_any_text() {
    assert_eq!(parsed("bücher.example:443"), Some(("bücher.example".to_string(), 443)));
    assert_eq!(parsed("host name:1"), Some(("host name".to_string(), 1)));
}

#[test]
fn a_port_may_have_a_plus_and_leading_zeros() {
    assert_eq!(parsed("h:+80"), Some(("h".to_string(), 80)));
    assert_eq!(parsed("h:0080"), Some(("h".to_string(), 80)));
    assert_eq!(parsed("h:000000000000000000000065535"), Some(("h".to_string(), 65535)));
    assert_eq!(parsed("h:+0"), Some(("h".to_string(), 0)));
}

#[test]
fn an_address_without_a_colon_is_invalid() {
    for address in ["", "localhost", "127.0.0.1", "8080"] {
        assert_eq!(parse_address(address).err(), Some(BindError::InvalidAddress));
    }
}

#[test]
fn an_address_without_a_port_is_invalid() {
    for address in [
        "localhost:",
        "localhost:+",
        "localhost:http",
        "localhost:80a",
        "localhost: 80",
        "localhost:80 ",
        "localhost:-1",
        "localhost:++1",
        "localhost:8+0",
        "localhost:65536",
        "localhost:99999",
        "localhost:4294967296",
        "localhost:18446744073709551616",
        "localhost:８０",
        "[::1]",
        "::",
    ] {
        assert_eq!(parse_address(address).err(), Some(BindError::InvalidAddress), "{}", address);
    }
}

#[test]
fn the_parser_agrees_with_the_standard_library_on_ports() {
    for text in ["0", "1", "80", "+80", "0080", "65535", "65536", "", "+", "-1", "1e3", " 1", "1 ", "٣"] {
        assert_eq!(parse_port(text.as_bytes()), text.parse::<u16>().ok(), "{:?}", text);
    }
    for port in [0u32, 9, 10, 99, 100, 8080, 65534, 65535, 65536, 70000, 655350] {
        let text = port.to_string();
        assert_eq!(parse_port(text.as_bytes()), u16::try_from(port).ok());
    }
}

#[test]
fn the_last_colon_is_found() {
    assert_eq!(find_last_colon(b""), None);
    assert_eq!(find_last_colon(b"none"), None);
    assert_eq!(find_last_colon(b":"), Some(0));
    assert_eq!(find_last_colon(b"a:b"), Some(1));
    assert_eq!(find_last_colon(b"a:b:c"), Some(3));
    assert_eq!(find_last_colon(b"::"), Some(1));
    for text in ["x:y:z", "no colon", ":lead", "trail:"] {
        assert_eq!(find_last_colon(text.as_bytes()), text.rfind(':'));
    }
}
