//! Host and port.

use mcservernap::endpoint::Endpoint;

#[test]
fn formats_ipv6_with_brackets_while_storing_an_unbracketed_host() {
    let ipv4 = Endpoint::new("127.0.0.1", 25_575);
    let hostname = Endpoint::new("localhost", 25_575);
    let ipv6 = Endpoint::new("::1", 25_575);
    let bracketed_ipv6 = Endpoint::new("[::1]", 25_575);

    assert_eq!(ipv4.to_string(), "127.0.0.1:25575");
    assert_eq!(hostname.to_string(), "localhost:25575");
    assert_eq!(ipv6.to_string(), "[::1]:25575");
    assert_eq!(bracketed_ipv6, ipv6);
    assert_eq!(ipv6.host(), "::1");
    assert_eq!(ipv6.port(), 25_575);
}

#[test]
fn keeps_a_single_bracket() {
    assert_eq!(Endpoint::new("[::1", 1).host(), "[::1");
    assert_eq!(Endpoint::new("host]", 1).to_string(), "host]:1");
}
