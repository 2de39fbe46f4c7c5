use vstd::prelude::*;
use vstd::utf8::{decode_utf8, valid_utf8};
use crate::error::{AddressNotAllowed, RequestError};

verus! {

/// Address type tag of an IPv4 address.
pub const ATYP_IPV4: u8 = 0x01;

/// Address type tag of a domain name.
pub const ATYP_DOMAIN: u8 = 0x03;

/// An IPv4 address and a port.
#[derive(Clone, Copy, Debug, PartialEq, Eq)]
pub struct Endpoint {
    pub octets: [u8; 4],
    pub port: u16,
}

/// A destination as a client names it in a connect request.
#[derive(Debug)]
pub enum Destination {
    Ipv4(Endpoint),
    Domain { name: String, port: u16 },
}

/// The mathematical value of a destination.
pub enum DestinationView {
    Ipv4 { octets: Seq<u8>, port: u16 },
    Domain { name: Seq<char>, port: u16 },
}

impl View for Destination {
    type V = DestinationView;

    open spec fn view(&self) -> DestinationView {
        match self {
            Destination::Ipv4(ep) => DestinationView::Ipv4 { octets: ep.octets@, port: ep.port },
            Destination::Domain { name, port } => DestinationView::Domain { name: name@, port: *port },
        }
    }
}

/// What a parser makes of the bytes received so far: either it needs at
/// least `Need(n)` bytes in total, or it has read a value from the first
/// bytes, and says how many it used.
#[derive(Debug)]
pub enum Parsed<T> {
    Need(usize),
    Done(T, usize),
}

/// The mathematical outcome of decoding an address field.
pub enum Decoded {
    Need(nat),
    Done(DestinationView, nat),
    Fail(RequestError),
}

/// The value of a big-endian two-byte integer.
pub open spec fn be_u16(hi: u8, lo: u8) -> u16 {
    (hi as int * 256 + lo as int) as u16
}

/// The big-endian bytes of a port.
pub open spec fn port_bytes(p: u16) -> Seq<u8> {
    seq![(p / 256) as u8, (p % 256) as u8]
}

/// The address field of an IPv4 endpoint: tag, four octets, port.
pub open spec fn encoded_ipv4(octets: Seq<u8>, port: u16) -> Seq<u8> {
    seq![ATYP_IPV4] + octets + port_bytes(port)
}

/// How an address field is decoded from the bytes `b`, which start at the
/// address type tag.
pub open spec fn spec_decode(b: Seq<u8>) -> Decoded {
    if b.len() < 1 {
        Decoded::Need(1)
    } else if b[0] == ATYP_IPV4 {
        if b.len() < 7 {
            Decoded::Need(7)
        } else {
            Decoded::Done(
                DestinationView::Ipv4 { octets: b.subrange(1, 5), port: be_u16(b[5], b[6]) },
                7,
            )
        }
    } else if b[0] == ATYP_DOMAIN {
        if b.len() < 2 {
            Decoded::Need(2)
        } else {
            let n = b[1] as int;
            if n == 0 {
                Decoded::Fail(RequestError::EmptyDomainName)
            } else if b.len() < n + 4 {
                Decoded::Need((n + 4) as nat)
            } else if !valid_utf8(b.subrange(2, n + 2)) {
                Decoded::Fail(RequestError::InvalidDomainName)
            } else {
                Decoded::Done(
                    DestinationView::Domain {
                        name: decode_utf8(b.subrange(2, n + 2)),
                        port: be_u16(b[n + 2], b[n + 3]),
                    },
                    (n + 4) as nat,
                )
            }
        }
    } else {
        Decoded::Fail(RequestError::AddressNotAllowed(AddressNotAllowed()))
    }
}

/// The mathematical outcome that an executable decoding result stands for.
pub open spec fn decoded_of(r: Result<Parsed<Destination>, RequestError>) -> Decoded {
    match r {
        Ok(Parsed::Need(n)) => Decoded::Need(n as nat),
        Ok(Parsed::Done(d, used)) => Decoded::Done(d@, used as nat),
        Err(e) => Decoded::Fail(e),
    }
}

/// Reads a big-endian two-byte integer.
pub fn read_be_u16(hi: u8, lo: u8) -> (r: u16)
    ensures
        r == be_u16(hi, lo),
{
    assert(hi as int * 256 <= 255 * 256) by (nonlinear_arith)
        requires
            hi <= 255,
    ;
    (hi as u16) * 256 + (lo as u16)
}

/// Relies on String::from_utf8: it accepts exactly the valid UTF-8 byte
/// sequences, and the string holds the characters they encode.
#[verifier::external_body]
fn utf8_text(bytes: Vec<u8>) -> (r: Option<String>)
    ensures
        r is Some <==> valid_utf8(bytes@),
        r is Some ==> r->0@ == decode_utf8(bytes@),
{
    String::from_utf8(bytes).ok()
}

/// Builds a domain destination from the outcome of reading its name as text.
pub fn domain_from_text(text: Option<String>, port: u16) -> (r: Result<Destination, RequestError>)
    ensures
        text is None ==> r == Err::<Destination, RequestError>(RequestError::InvalidDomainName),
        text is Some ==> r is Ok && r->Ok_0@ == (DestinationView::Domain { name: text->0@, port }),
{
    match text {
        Some(name) => Ok(Destination::Domain { name, port }),
        None => Err(RequestError::InvalidDomainName),
    }
}

/// Decodes the address field that starts at `buf[at]`.
pub(crate) fn decode_at(buf: &[u8], at: usize) -> (r: Result<Parsed<Destination>, RequestError>)
    requires
        at <= buf@.len(),
    ensures
        decoded_of(r) == spec_decode(buf@.subrange(at as int, buf@.len() as int)),
{
    let ghost b = buf@.subrange(at as int, buf@.len() as int);
    let avail: usize = buf.len() - at;
    if avail < 1 {
        return Ok(Parsed::Need(1));
    }
    let atyp = buf[at];
    if atyp == ATYP_IPV4 {
        if avail < 7 {
            return Ok(Parsed::Need(7));
        }
        let octets: [u8; 4] = [buf[at + 1], buf[at + 2], buf[at + 3], buf[at + 4]];
        let port = read_be_u16(buf[at + 5], buf[at + 6]);
        assert(octets@ =~= b.subrange(1, 5));
        Ok(Parsed::Done(Destination::Ipv4(Endpoint { octets, port }), 7))
    } else if atyp == ATYP_DOMAIN {
        if avail < 2 {
            return Ok(Parsed::Need(2));
        }
        let n = buf[at + 1] as usize;
        if n == 0 {
            return Err(RequestError::EmptyDomainName);
        }
        if avail < n + 4 {
            return Ok(Parsed::Need(n + 4));
        }
        let mut name_bytes: Vec<u8> = Vec::with_capacity(n);
        let mut i: usize = 0;
        while i < n
            invariant
                i <= n,
                at + n + 4 <= buf.len(),
                name_bytes@ == buf@.subrange(at + 2, at + 2 + i),
            decreases n - i,
        {
            name_bytes.push(buf[at + 2 + i]);
            i = i + 1;
            assert(name_bytes@ =~= buf@.subrange(at + 2, at + 2 + i));
        }
        assert(name_bytes@ =~= b.subrange(2, n + 2));
        let port = read_be_u16(buf[at + 2 + n], buf[at + 3 + n]);
        match domain_from_text(utf8_text(name_bytes), port) {
            Ok(d) => Ok(Parsed::Done(d, n + 4)),
            Err(e) => Err(e),
        }
    } else {
        Err(RequestError::AddressNotAllowed(AddressNotAllowed()))
    }
}

/// Decodes an address field: tag, address, big-endian port.
pub fn decode_address(buf: &[u8]) -> (r: Result<Parsed<Destination>, RequestError>)
    ensures
        decoded_of(r) == spec_decode(buf@),
{
    assert(buf@.subrange(0, buf@.len() as int) =~= buf@);
    decode_at(buf, 0)
}

/// Encodes an IPv4 endpoint as an address field.
pub fn encode_ipv4(ep: &Endpoint) -> (r: Vec<u8>)
    ensures
        r@ == encoded_ipv4(ep.octets@, ep.port),
{
    let r = vec![
        ATYP_IPV4,
        ep.octets[0],
        ep.octets[1],
        ep.octets[2],
        ep.octets[3],
        (ep.port / 256) as u8,
        (ep.port % 256) as u8,
    ];
    assert(r@ =~= encoded_ipv4(ep.octets@, ep.port));
    r
}

/// Encoding an IPv4 endpoint and decoding the result gives back the same
/// address and port, and consumes the whole field.
pub proof fn lemma_ipv4_round_trip(octets: Seq<u8>, port: u16)
    requires
        octets.len() == 4,
    ensures
        spec_decode(encoded_ipv4(octets, port)) == Decoded::Done(
            DestinationView::Ipv4 { octets, port },
            7,
        ),
{
    let b = encoded_ipv4(octets, port);
    assert(b.subrange(1, 5) =~= octets);
    assert(b[5] == (port / 256) as u8 && b[6] == (port % 256) as u8);
    assert(((port / 256) as u8) as int * 256 + ((port % 256) as u8) as int == port) by (nonlinear_arith)
        requires
            0 <= port < 65536,
    ;
}

/// A domain name whose length byte is zero is refused, and so is one whose
/// bytes are not valid UTF-8.
pub proof fn lemma_domain_rejections(b: Seq<u8>)
    requires
        b.len() >= 2,
        b[0] == ATYP_DOMAIN,
    ensures
        b[1] == 0 ==> spec_decode(b) == Decoded::Fail(RequestError::EmptyDomainName),
        b[1] > 0 && b.len() >= b[1] + 4 && !valid_utf8(b.subrange(2, b[1] + 2))
            ==> spec_decode(b) == Decoded::Fail(RequestError::InvalidDomainName),
{
}

} // verus!
