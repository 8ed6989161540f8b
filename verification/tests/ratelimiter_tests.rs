use protin::ratelimiter::{get_ns_per_request, IpKey, KeyExtractionError, ParsedAddress, RealIpKeyExtractor};

#[test]
fn ns_per_request() {
    assert_eq!(get_ns_per_request(1), 1_000_000_000);
    assert_eq!(get_ns_per_request(3), 333_333_333);
    assert_eq!(get_ns_per_request(1000), 1_000_000);
    assert_eq!(get_ns_per_request(u32::MAX), 0);
}

fn parsed(ip: IpKey) -> ParsedAddress {
    ParsedAddress { as_socket_address: None, as_ip_address: Some(ip) }
}

const PROXY: IpKey = IpKey::V4(0x0a00_0001);
const CLIENT: IpKey = IpKey::V4(0xc0a8_0102);
const OTHER: IpKey = IpKey::V6(1);

#[test]
fn proxied_requests_use_forwarded_address() {
    let ex = RealIpKeyExtractor { reverse_proxy_ip: PROXY };
    assert_eq!(ex.extract(Some(PROXY), Some(parsed(CLIENT)), Some(parsed(PROXY))), Ok(CLIENT));
}

#[test]
fn direct_requests_use_peer_address() {
    let ex = RealIpKeyExtractor { reverse_proxy_ip: PROXY };
    assert_eq!(ex.extract(Some(OTHER), Some(parsed(CLIENT)), Some(parsed(OTHER))), Ok(OTHER));
    assert_eq!(ex.extract(None, Some(parsed(CLIENT)), Some(parsed(OTHER))), Ok(OTHER));
}

#[test]
fn socket_address_is_preferred() {
    let ex = RealIpKeyExtractor { reverse_proxy_ip: PROXY };
    let both = ParsedAddress { as_socket_address: Some(CLIENT), as_ip_address: Some(OTHER) };
    assert_eq!(ex.extract(None, None, Some(both)), Ok(CLIENT));
}

#[test]
fn missing_and_unparsable_addresses() {
    let ex = RealIpKeyExtractor { reverse_proxy_ip: PROXY };
    let err = ex.extract(Some(PROXY), None, Some(parsed(PROXY))).unwrap_err();
    assert_eq!(err, KeyExtractionError::MissingAddress);
    assert_eq!(err.message(), "Could not extract real IP address from request");
    let junk = ParsedAddress { as_socket_address: None, as_ip_address: None };
    let err = ex.extract(None, None, Some(junk)).unwrap_err();
    assert_eq!(err, KeyExtractionError::UnparsableAddress);
    assert_eq!(err.message(), "Could not parse real IP address from request");
}

#[test]
fn v4_and_v6_keys_differ() {
    let ex = RealIpKeyExtractor { reverse_proxy_ip: IpKey::V4(1) };
    assert_eq!(ex.extract(Some(IpKey::V6(1)), Some(parsed(CLIENT)), Some(parsed(OTHER))), Ok(OTHER));
}
