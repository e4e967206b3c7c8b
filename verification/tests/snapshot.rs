use rita_core::address::{IpAddress, Prefix};
use rita_core::snapshot::{
    build_route, check_greeting, check_numbers, find_field, parse_line, parse_number,
    read_snapshot, ProtocolError, Record,
};

const XROUTE_LINE: &str =
    "add xroute 10.28.119.131/32-::/0 prefix 10.28.119.131/32 from ::/0 metric 0";

const ROUTE_LINE: &str = "add route 14f06d8 prefix 10.28.20.151/32 from 0.0.0.0/0 installed yes id \
     ba:27:eb:ff:fe:c1:2d:d5 metric 1306 price 4008 refmetric 0 via \
     fe80::e9d0:498f:6c61:be29 if wlan0";

const NEIGH_LINE: &str =
    "add neighbour 14f05f0 address fe80::e9d0:498f:6c61:be29 if wlan0 reach ffff rxcost \
     256 txcost 256 rtt 29.264 rttcost 1050 cost 1306";

const IFACE_LINE: &str =
    "add interface wlan0 up true ipv6 fe80::1a8b:ec1:8542:1bd8 ipv4 10.28.119.131";

const PRICE_LINE: &str = "local price 1024";

fn words(line: &str) -> Vec<String> {
    line.split(' ').map(|w| w.to_string()).collect()
}

fn lines(text: &str) -> Vec<String> {
    text.lines().map(|l| l.to_string()).collect()
}

fn error_of(line: &str) -> Option<ProtocolError> {
    parse_line(line).err()
}

#[test]
fn a_route_line_gives_its_route() {
    match parse_line(ROUTE_LINE) {
        Ok(Record::Route(r)) => {
            assert_eq!(r.prefix, Prefix { addr: IpAddress::V4(0x0a1c_1497), len: 32 });
            assert_eq!(r.iface, "wlan0");
            assert!(r.installed);
            assert_eq!(r.price, 4008);
        },
        other => panic!("not a route: {:?}", other),
    }
}

#[test]
fn an_ipv6_route_that_is_not_installed() {
    let line = "add route 1 prefix fd00::1337:e2f/128 from ::/0 installed no id x metric 5 price 0 if wg7";
    match parse_line(line) {
        Ok(Record::Route(r)) => {
            assert_eq!(
                r.prefix,
                Prefix { addr: IpAddress::V6(0xfd00_0000_0000_0000_0000_0000_1337_0e2f), len: 128 }
            );
            assert_eq!(r.iface, "wg7");
            assert!(!r.installed);
            assert_eq!(r.price, 0);
        },
        other => panic!("not a route: {:?}", other),
    }
}

#[test]
fn a_network_route_keeps_its_mask_length() {
    let line = "add route 1 prefix 10.28.0.0/16 installed yes price 3 if wg7";
    match parse_line(line) {
        Ok(Record::Route(r)) => {
            assert_eq!(r.prefix, Prefix { addr: IpAddress::V4(0x0a1c_0000), len: 16 });
            assert!(!r.prefix.is_host());
        },
        other => panic!("not a route: {:?}", other),
    }
}

#[test]
fn a_neighbour_line_gives_address_and_interface() {
    match parse_line(NEIGH_LINE) {
        Ok(Record::Neighbour(n)) => {
            assert_eq!(n.address, "fe80::e9d0:498f:6c61:be29");
            assert_eq!(n.iface, "wlan0");
        },
        other => panic!("not a neighbour: {:?}", other),
    }
    assert_eq!(error_of("add neighbour 1 address fe80::1 reach ffff"), Some(ProtocolError::MissingField));
    assert_eq!(
        error_of("add neighbour 1 address fe80::1 if wg0 cost -1"),
        Some(ProtocolError::BadNumber)
    );
}

#[test]
fn other_known_records_are_passed_over() {
    assert!(matches!(parse_line(XROUTE_LINE), Ok(Record::Other)));
    assert!(matches!(parse_line(IFACE_LINE), Ok(Record::Other)));
    assert_eq!(
        error_of("add xroute 10.0.0.0/8-::/0 prefix 10.0.0.0/8 from ::/0 metric many"),
        Some(ProtocolError::BadNumber)
    );
}

#[test]
fn the_local_fee_is_read_under_both_names() {
    assert!(matches!(parse_line(PRICE_LINE), Ok(Record::LocalFee(1024))));
    assert!(matches!(parse_line("local fee 0"), Ok(Record::LocalFee(0))));
    assert!(matches!(
        parse_line("local fee 18446744073709551615"),
        Ok(Record::LocalFee(u64::MAX))
    ));
    assert_eq!(error_of("local fee"), Some(ProtocolError::MissingField));
    assert_eq!(error_of("local fee -5"), Some(ProtocolError::BadNumber));
    assert_eq!(error_of("local fee 18446744073709551616"), Some(ProtocolError::BadNumber));
    assert_eq!(error_of("local price 1e3"), Some(ProtocolError::BadNumber));
    assert_eq!(error_of("local fee "), Some(ProtocolError::BadNumber));
}

#[test]
fn the_closing_line_and_lines_to_pass_over() {
    assert!(matches!(parse_line("ok"), Ok(Record::End)));
    assert!(matches!(parse_line("ok "), Ok(Record::Other)));
    assert!(matches!(parse_line(""), Ok(Record::Other)));
    assert!(matches!(parse_line("add"), Ok(Record::Other)));
    assert!(matches!(parse_line("add teapot 1 price x"), Ok(Record::Other)));
    assert!(matches!(parse_line("version babeld-1.8.0-24-g6335378"), Ok(Record::Other)));
    assert!(matches!(parse_line("my-id ba:27:eb:ff:fe:09:06:dd"), Ok(Record::Other)));
    assert!(matches!(parse_line("local weather fine"), Ok(Record::Other)));
}

#[test]
fn a_known_record_under_a_mistyped_verb_is_an_error() {
    let line = "addd route 14f06d8 prefix 10.28.20.151/32 from 0.0.0.0/0 installed yes id \
                ba:27:eb:ff:fe:c1:2d:d5 metric 1306 price 4008 refmetric 0 via \
                fe80::e9d0:498f:6c61:be29 if wlan0";
    assert_eq!(error_of(line), Some(ProtocolError::UnknownVerb));
    assert_eq!(error_of("flush neighbour 1"), Some(ProtocolError::UnknownVerb));
}

#[test]
fn route_errors() {
    assert_eq!(
        error_of("add route 1 prefix 10.0.0.5/32 installed yes if wg0"),
        Some(ProtocolError::MissingField)
    );
    assert_eq!(
        error_of("add route 1 installed yes price 1 if wg0"),
        Some(ProtocolError::MissingField)
    );
    assert_eq!(
        error_of("add route 1 prefix 10.0.0.5/32 installed yes price 1 if"),
        Some(ProtocolError::MissingField)
    );
    assert_eq!(
        error_of("add route 1 prefix 10.0.0.5/32 installed yes price -1 if wg0"),
        Some(ProtocolError::BadNumber)
    );
    assert_eq!(
        error_of("add route 1 prefix 10.0.0.5/32 installed yes metric x price 1 if wg0"),
        Some(ProtocolError::BadNumber)
    );
    assert_eq!(
        error_of("add route 1 prefix 10.0.0.5/32 installed maybe price 1 if wg0"),
        Some(ProtocolError::BadFlag)
    );
    assert_eq!(
        error_of("add route 1 prefix 10.0.0.5 installed yes price 1 if wg0"),
        Some(ProtocolError::BadPrefix)
    );
    assert_eq!(
        error_of("add route 1 prefix 10.0.0.5/24 installed yes price 1 if wg0"),
        Some(ProtocolError::BadPrefix)
    );
    assert_eq!(
        error_of("add route 1 prefix 10.0.0.5/33 installed yes price 1 if wg0"),
        Some(ProtocolError::BadPrefix)
    );
    assert_eq!(
        error_of("add route 1 prefix 10.0.0.5/32 installed yes price 1 if wg\u{e9}"),
        Some(ProtocolError::NotAscii)
    );
}

#[test]
fn numbers() {
    assert_eq!(parse_number(&"0".to_string()), Some(0));
    assert_eq!(parse_number(&"007".to_string()), Some(7));
    assert_eq!(parse_number(&"4008".to_string()), Some(4008));
    assert_eq!(parse_number(&"18446744073709551615".to_string()), Some(u64::MAX));
    assert_eq!(parse_number(&"18446744073709551616".to_string()), None);
    assert_eq!(parse_number(&"99999999999999999999999".to_string()), None);
    assert_eq!(parse_number(&"".to_string()), None);
    assert_eq!(parse_number(&"-1".to_string()), None);
    assert_eq!(parse_number(&"+1".to_string()), None);
    assert_eq!(parse_number(&"12a".to_string()), None);
    assert_eq!(parse_number(&"1.5".to_string()), None);
    assert_eq!(parse_number(&"\u{663}".to_string()), None);
}

#[test]
fn fields_are_found_by_their_key() {
    let tokens = words("add route x if a if b price");
    assert_eq!(find_field(&tokens, "if", 2), Some(3));
    assert_eq!(find_field(&tokens, "if", 4), Some(5));
    assert_eq!(find_field(&tokens, "price", 2), None);
    assert_eq!(find_field(&tokens, "add", 2), None);
    assert_eq!(find_field(&tokens, "add", 0), Some(0));
    assert!(check_numbers(&words("add route price 1 fee 2 cost 3")));
    assert!(!check_numbers(&words("add route price 1 fee 2 cost x")));
    assert!(check_numbers(&words("price x route price")));
}

#[test]
fn a_route_is_built_from_its_words_and_its_prefix() {
    let tokens = words("add route 1 prefix ignored installed no price 12 if wg3");
    let net = Prefix { addr: IpAddress::V4(9), len: 32 };
    let r = build_route(&tokens, Some(net)).unwrap();
    assert_eq!(r.prefix, net);
    assert_eq!(r.iface, "wg3");
    assert!(!r.installed);
    assert_eq!(r.price, 12);
    assert_eq!(build_route(&tokens, None).err(), Some(ProtocolError::BadPrefix));
}

const TABLE: &str = "local fee 1024\n\
add interface wlan0 up true ipv6 fe80::1a8b:ec1:8542:1bd8 ipv4 10.28.119.131\n\
add interface wg0 up true ipv6 fe80::2cee:2fff:7380:8354 ipv4 10.0.236.201\n\
add neighbour 14f19a8 address fe80::2cee:2fff:648:8796 if wg0 reach ffff rxcost 256 txcost 256 rtt \
26.723 rttcost 912 cost 1168\n\
add neighbour 14f0640 address fe80::e841:e384:491e:8eb9 if wlan0 reach 9ff7 rxcost 512 txcost 256 \
rtt 19.323 rttcost 508 cost 1020\n\
add neighbour 14f05f0 address fe80::e9d0:498f:6c61:be29 if wlan0 reach feff rxcost 258 txcost 341 \
rtt 18.674 rttcost 473 cost 817\n\
add neighbour 14f0488 address fe80::e914:2335:a76:bda3 if wlan0 reach feff rxcost 258 txcost 256 \
rtt 22.805 rttcost 698 cost 956\n\
add xroute 10.28.119.131/32-::/0 prefix 10.28.119.131/32 from ::/0 metric 0\n\
add route 14f0820 prefix 10.28.7.7/32 from 0.0.0.0/0 installed yes id ba:27:eb:ff:fe:5b:fe:c7\
metric 1596 price 3072 fee 3072 refmetric 638 via fe80::e914:2335:a76:bda3 if wlan0\n\
add route 14f07a0 prefix 10.28.7.7/32 from 0.0.0.0/0 installed no id ba:27:eb:ff:fe:5b:fe:c7\
metric 1569 price 5032 fee 5032 refmetric 752 via fe80::e9d0:498f:6c61:be29 if wlan0\n\
add route 14f06d8 prefix 10.28.20.151/32 from 0.0.0.0/0 installed yes id ba:27:eb:ff:fe:c1:2d:d5\
metric 817 price 4008 fee 4008 refmetric 0 via fe80::e9d0:498f:6c61:be29 if wlan0\n\
add route 14f0548 prefix 10.28.244.138/32 from 0.0.0.0/0 installed yes id ba:27:eb:ff:fe:d1:3e:ba\
metric 958 price 2048 fee 2048 refmetric 0 via fe80::e914:2335:a76:bda3 if wlan0\n\
ok\n";

const PREAMBLE: &str = "ALTHEA 0.1\nversion babeld-1.8.0-24-g6335378\nhost raspberrypi\nmy-id \
                        ba:27:eb:ff:fe:09:06:dd\nok\n";

#[test]
fn a_whole_table_is_read() {
    let s = read_snapshot(&lines(TABLE)).unwrap();
    assert_eq!(s.local_fee, Some(1024));
    assert_eq!(s.routes.len(), 4);
    let prices: Vec<u64> = s.routes.iter().map(|r| r.price).collect();
    assert_eq!(prices, vec![3072, 5032, 4008, 2048]);
    let installed: Vec<bool> = s.routes.iter().map(|r| r.installed).collect();
    assert_eq!(installed, vec![true, false, true, true]);
    assert_eq!(s.routes[0].prefix, Prefix { addr: IpAddress::V4(0x0a1c_0707), len: 32 });
    assert_eq!(s.routes[3].prefix, Prefix { addr: IpAddress::V4(0x0a1c_f48a), len: 32 });
    assert_eq!(s.routes[3].iface, "wlan0");
    assert_eq!(s.neighbours.len(), 4);
    assert_eq!(s.neighbours[0].iface, "wg0");
    assert_eq!(s.neighbours[0].address, "fe80::2cee:2fff:648:8796");
    assert_eq!(s.neighbours[3].address, "fe80::e914:2335:a76:bda3");
}

#[test]
fn reading_stops_at_the_closing_line() {
    let s = read_snapshot(&lines("local fee 1\nok\nlocal fee 2\naddd route x\n")).unwrap();
    assert_eq!(s.local_fee, Some(1));
    assert!(s.routes.is_empty());
    let later = read_snapshot(&lines("local fee 1\nlocal price 2\nok\n")).unwrap();
    assert_eq!(later.local_fee, Some(2));
    let none = read_snapshot(&lines("ok\n")).unwrap();
    assert_eq!(none.local_fee, None);
}

#[test]
fn a_table_without_its_closing_line_is_truncated() {
    assert_eq!(read_snapshot(&lines("local fee 1\n")).err(), Some(ProtocolError::Truncated));
    assert_eq!(read_snapshot(&vec![]).err(), Some(ProtocolError::Truncated));
    let cut = &TABLE[..TABLE.len() - 3];
    assert_eq!(read_snapshot(&lines(cut)).err(), Some(ProtocolError::Truncated));
}

#[test]
fn the_first_bad_line_fails_the_whole_table() {
    let text = format!("local fee 1\n{}\nadd{}\nlocal fee x\nok\n", ROUTE_LINE, &ROUTE_LINE[2..]);
    assert_eq!(read_snapshot(&lines(&text)).err(), Some(ProtocolError::UnknownVerb));
    let text = format!("local fee x\nadd{}\nok\n", &ROUTE_LINE[2..]);
    assert_eq!(read_snapshot(&lines(&text)).err(), Some(ProtocolError::BadNumber));
}

#[test]
fn the_greeting_opens_with_a_banner_and_closes_with_ok() {
    assert_eq!(check_greeting(&lines(PREAMBLE)), Ok(()));
    assert_eq!(check_greeting(&lines("BABEL 1.0\nok\n")), Ok(()));
    assert_eq!(check_greeting(&vec![]), Err(ProtocolError::BadBanner));
    assert_eq!(check_greeting(&lines("ok\n")), Err(ProtocolError::BadBanner));
    assert_eq!(check_greeting(&lines("HELLO 0.1\nok\n")), Err(ProtocolError::BadBanner));
    assert_eq!(check_greeting(&lines("ALTHEA\nok\n")), Err(ProtocolError::BadBanner));
    assert_eq!(check_greeting(&lines("ALTH\u{c9}A 0.1\nok\n")), Err(ProtocolError::BadBanner));
    assert_eq!(check_greeting(&lines("ALTHEA 0.1\nhost x\n")), Err(ProtocolError::Truncated));
    assert_eq!(check_greeting(&lines("ALTHEA 0.1\n")), Err(ProtocolError::Truncated));
}
