//! Request-rate limiting: the spacing of requests for a rate, and which
//! address a client is counted under.

use vstd::prelude::*;

verus! {

/// Nanoseconds in one second.
pub const ONE_SEC_IN_NS: u128 = 1_000_000_000;

/// The interval, in nanoseconds, that lets `request_per_second` requests
/// through each second (rounded down): that many intervals fit in a second,
/// one more do not.
pub fn get_ns_per_request(request_per_second: u32) -> (res: u64)
    requires
        request_per_second > 0,
    ensures
        res == ONE_SEC_IN_NS / (request_per_second as u128),
        res * request_per_second <= ONE_SEC_IN_NS,
        ONE_SEC_IN_NS < (res + 1) * request_per_second,
{
    let res = (ONE_SEC_IN_NS / (request_per_second as u128)) as u64;
    proof {
        let r = request_per_second as int;
        let q = res as int;
        vstd::arithmetic::div_mod::lemma_fundamental_div_mod(ONE_SEC_IN_NS as int, r);
        vstd::arithmetic::div_mod::lemma_mod_bound(ONE_SEC_IN_NS as int, r);
        assert(q * r <= ONE_SEC_IN_NS) by (nonlinear_arith)
            requires
                ONE_SEC_IN_NS as int == r * q + (ONE_SEC_IN_NS as int) % r,
                0 <= (ONE_SEC_IN_NS as int) % r,
        ;
        assert(ONE_SEC_IN_NS < (q + 1) * r) by (nonlinear_arith)
            requires
                ONE_SEC_IN_NS as int == r * q + (ONE_SEC_IN_NS as int) % r,
                (ONE_SEC_IN_NS as int) % r < r,
        ;
    }
    res
}

/// An IP address as a rate-limiting key: the 32 bits of a version 4 address
/// or the 128 bits of a version 6 one. Addresses of the two versions are
/// never equal.
#[derive(Clone, Copy, Debug, PartialEq, Eq, Structural)]
pub enum IpKey {
    V4(u32),
    V6(u128),
}

/// What could be read from an address text: the IP of a socket address
/// (`ip:port`) when the text is one, and the IP when the text is a bare IP.
#[derive(Clone, Copy, Debug, PartialEq, Eq, Structural)]
pub struct ParsedAddress {
    pub as_socket_address: Option<IpKey>,
    pub as_ip_address: Option<IpKey>,
}

/// Why no key could be had for a request.
#[derive(Clone, Copy, Debug, PartialEq, Eq, Structural)]
pub enum KeyExtractionError {
    /// The address to key on is not known.
    MissingAddress,
    /// The address to key on is neither a socket address nor an IP.
    UnparsableAddress,
}

/// The text each error is reported with.
pub open spec fn key_extraction_error_text(e: KeyExtractionError) -> Seq<char> {
    match e {
        KeyExtractionError::MissingAddress => "Could not extract real IP address from request"@,
        KeyExtractionError::UnparsableAddress => "Could not parse real IP address from request"@,
    }
}

impl KeyExtractionError {
    /// The text the error is reported with.
    pub fn message(&self) -> (res: &'static str)
        ensures
            res@ == key_extraction_error_text(*self),
    {
        match self {
            KeyExtractionError::MissingAddress => "Could not extract real IP address from request",
            KeyExtractionError::UnparsableAddress => "Could not parse real IP address from request",
        }
    }
}

/// The IP an address text stands for: its socket address's IP, else the text
/// as a bare IP.
pub open spec fn spec_resolve(address: ParsedAddress) -> Result<IpKey, KeyExtractionError> {
    match address.as_socket_address {
        Some(ip) => Ok(ip),
        None => match address.as_ip_address {
            Some(ip) => Ok(ip),
            None => Err(KeyExtractionError::UnparsableAddress),
        },
    }
}

/// Keys requests by the client's IP, trusting the forwarded client address
/// only on requests that come from the reverse proxy.
#[derive(Clone, Copy, Debug, PartialEq, Eq, Structural)]
pub struct RealIpKeyExtractor {
    pub reverse_proxy_ip: IpKey,
}

impl RealIpKeyExtractor {
    pub open spec fn spec_extract(
        self,
        peer_ip: Option<IpKey>,
        realip_remote_addr: Option<ParsedAddress>,
        peer_addr: Option<ParsedAddress>,
    ) -> Result<IpKey, KeyExtractionError> {
        let chosen = if peer_ip == Some(self.reverse_proxy_ip) {
            realip_remote_addr
        } else {
            peer_addr
        };
        match chosen {
            Some(address) => spec_resolve(address),
            None => Err(KeyExtractionError::MissingAddress),
        }
    }

    /// The key of a request whose connection peer has IP `peer_ip` (if
    /// known): the forwarded client address (`realip_remote_addr`) when the
    /// peer is the reverse proxy, else the peer address (`peer_addr`), each
    /// given as what could be read from its text (`None` when the request
    /// has no such address).
    pub fn extract(
        &self,
        peer_ip: Option<IpKey>,
        realip_remote_addr: Option<ParsedAddress>,
        peer_addr: Option<ParsedAddress>,
    ) -> (res: Result<IpKey, KeyExtractionError>)
        ensures
            res == self.spec_extract(peer_ip, realip_remote_addr, peer_addr),
    {
        let from_proxy = match peer_ip {
            Some(ip) => ip == self.reverse_proxy_ip,
            None => false,
        };
        let chosen = if from_proxy {
            realip_remote_addr
        } else {
            peer_addr
        };
        match chosen {
            Some(address) => match address.as_socket_address {
                Some(ip) => Ok(ip),
                None => match address.as_ip_address {
                    Some(ip) => Ok(ip),
                    None => Err(KeyExtractionError::UnparsableAddress),
                },
            },
            None => Err(KeyExtractionError::MissingAddress),
        }
    }
}

/// The key an address gives, read directly from its readings: the socket
/// address's IP, else the bare IP; unparsable when neither reading exists,
/// missing when there is no address at all.
pub open spec fn address_key(address: Option<ParsedAddress>) -> Result<IpKey, KeyExtractionError> {
    if address is None {
        Err(KeyExtractionError::MissingAddress)
    } else if address.unwrap().as_socket_address is Some {
        Ok(address.unwrap().as_socket_address.unwrap())
    } else if address.unwrap().as_ip_address is Some {
        Ok(address.unwrap().as_ip_address.unwrap())
    } else {
        Err(KeyExtractionError::UnparsableAddress)
    }
}

/// Whatever the proxy's address (version 4 or 6), a request whose peer is
/// the reverse proxy is keyed by the forwarded client address, and any other
/// request by its peer address.
pub proof fn lemma_key_source(
    extractor: RealIpKeyExtractor,
    peer_ip: Option<IpKey>,
    forwarded: Option<ParsedAddress>,
    peer_addr: Option<ParsedAddress>,
)
    ensures
        peer_ip == Some(extractor.reverse_proxy_ip) ==> extractor.spec_extract(
            peer_ip,
            forwarded,
            peer_addr,
        ) == address_key(forwarded),
        peer_ip != Some(extractor.reverse_proxy_ip) ==> extractor.spec_extract(
            peer_ip,
            forwarded,
            peer_addr,
        ) == address_key(peer_addr),
{
}

/// Only the reverse proxy can choose the key it is counted under: for a
/// request from any other peer, the forwarded address plays no part.
pub proof fn lemma_forwarded_address_needs_proxy(
    extractor: RealIpKeyExtractor,
    peer_ip: Option<IpKey>,
    forwarded: Option<ParsedAddress>,
    other_forwarded: Option<ParsedAddress>,
    peer_addr: Option<ParsedAddress>,
)
    requires
        peer_ip != Some(extractor.reverse_proxy_ip),
    ensures
        extractor.spec_extract(peer_ip, forwarded, peer_addr) == extractor.spec_extract(
            peer_ip,
            other_forwarded,
            peer_addr,
        ),
{
}

} // verus!
