use goose_api::address::{parse_host, parse_port};

#[test]
fn host_with_four_octets_parses() {
    assert_eq!(parse_host("127.0.0.1"), [127, 0, 0, 1]);
    assert_eq!(parse_host("10.20.30.40"), [10, 20, 30, 40]);
    assert_eq!(parse_host("0.0.0.0"), [0, 0, 0, 0]);
    assert_eq!(parse_host("255.255.255.255"), [255, 255, 255, 255]);
    assert_eq!(parse_host("+1.002.3.4"), [1, 2, 3, 4]);
}

#[test]
fn malformed_host_falls_back_to_loopback() {
    assert_eq!(parse_host(""), [127, 0, 0, 1]);
    assert_eq!(parse_host("localhost"), [127, 0, 0, 1]);
    assert_eq!(parse_host("1.2.3"), [127, 0, 0, 1]);
    assert_eq!(parse_host("1.2.3.4.5"), [127, 0, 0, 1]);
    assert_eq!(parse_host("10.0.x.1"), [127, 0, 0, 1]);
    assert_eq!(parse_host("256.1.1.1"), [127, 0, 0, 1]);
    assert_eq!(parse_host("1..2.3"), [127, 0, 0, 1]);
    assert_eq!(parse_host("1.2.3.4."), [127, 0, 0, 1]);
    assert_eq!(parse_host("-1.2.3.4"), [127, 0, 0, 1]);
    assert_eq!(parse_host(" 1.2.3.4"), [127, 0, 0, 1]);
    assert_eq!(parse_host("+.2.3.4"), [127, 0, 0, 1]);
}

#[test]
fn port_parses_or_falls_back() {
    assert_eq!(parse_port("8080"), 8080);
    assert_eq!(parse_port("3000"), 3000);
    assert_eq!(parse_port("0"), 0);
    assert_eq!(parse_port("65535"), 65535);
    assert_eq!(parse_port("+443"), 443);
    assert_eq!(parse_port("65536"), 8080);
    assert_eq!(parse_port("99999999999"), 8080);
    assert_eq!(parse_port("abc"), 8080);
    assert_eq!(parse_port(""), 8080);
    assert_eq!(parse_port("80 "), 8080);
    assert_eq!(parse_port("-1"), 8080);
}
