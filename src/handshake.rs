use vstd::prelude::*;
use crate::address::{decode_at, decoded_of, spec_decode, Decoded, Destination, Parsed};
use crate::error::{CommandNotAllowedError, RequestError};

verus! {

/// The only authentication method this server selects: none required.
pub const NO_AUTHENTICATION: u8 = 0x00;

/// The only command this server carries out: establish a TCP stream.
pub const CMD_CONNECT: u8 = 0x01;

/// How a method-negotiation request is read from the bytes `b`: version,
/// method count, then that many method identifiers. The value read is the
/// version byte.
pub open spec fn spec_method_request(b: Seq<u8>) -> Parsed<u8> {
    if b.len() < 2 {
        Parsed::Need(2)
    } else if b.len() < b[1] + 2 {
        Parsed::Need((b[1] + 2) as usize)
    } else {
        Parsed::Done(b[0], (b[1] + 2) as usize)
    }
}

/// The answer to a method-negotiation request: the version echoed, and
/// "no authentication required", whatever methods were offered.
pub open spec fn spec_method_reply(version: u8) -> Seq<u8> {
    seq![version, NO_AUTHENTICATION]
}

/// Reads a method-negotiation request.
pub fn parse_method_request(buf: &[u8]) -> (r: Parsed<u8>)
    ensures
        r == spec_method_request(buf@),
{
    if buf.len() < 2 {
        return Parsed::Need(2);
    }
    let want = buf[1] as usize + 2;
    if buf.len() < want {
        Parsed::Need(want)
    } else {
        Parsed::Done(buf[0], want)
    }
}

/// Serialises the answer to a method-negotiation request.
pub fn method_reply(version: u8) -> (r: Vec<u8>)
    ensures
        r@ == spec_method_reply(version),
{
    let r = vec![version, NO_AUTHENTICATION];
    assert(r@ =~= spec_method_reply(version));
    r
}

/// A decoding outcome with `k` more bytes in front of the field.
pub open spec fn shifted(d: Decoded, k: nat) -> Decoded {
    match d {
        Decoded::Need(n) => Decoded::Need(n + k),
        Decoded::Done(v, used) => Decoded::Done(v, used + k),
        Decoded::Fail(e) => Decoded::Fail(e),
    }
}

/// How a connect request is read from the bytes `b`: version, command,
/// reserved byte, then the address field. Any command but connect is
/// refused before the address is looked at.
pub open spec fn spec_connect_request(b: Seq<u8>) -> Decoded {
    if b.len() < 4 {
        Decoded::Need(4)
    } else if b[1] != CMD_CONNECT {
        Decoded::Fail(RequestError::CommandNotAllowed(CommandNotAllowedError()))
    } else {
        shifted(spec_decode(b.subrange(3, b.len() as int)), 3)
    }
}

/// Reads a connect request and decodes its destination.
pub fn parse_connect_request(buf: &[u8]) -> (r: Result<Parsed<Destination>, RequestError>)
    ensures
        decoded_of(r) == spec_connect_request(buf@),
{
    if buf.len() < 4 {
        return Ok(Parsed::Need(4));
    }
    if buf[1] != CMD_CONNECT {
        return Err(RequestError::CommandNotAllowed(CommandNotAllowedError()));
    }
    match decode_at(buf, 3) {
        Ok(Parsed::Need(n)) => Ok(Parsed::Need(n + 3)),
        Ok(Parsed::Done(d, used)) => Ok(Parsed::Done(d, used + 3)),
        Err(e) => Err(e),
    }
}

/// Every complete method-negotiation request of version 5 is answered with
/// version 5 and "no authentication required", whichever methods it offers.
pub proof fn lemma_method_negotiation_no_auth(b: Seq<u8>)
    requires
        b.len() >= 2,
        b[0] == 5,
        b.len() == b[1] + 2,
    ensures
        spec_method_request(b) == Parsed::<u8>::Done(5, b.len() as usize),
        spec_method_reply(5) == seq![5u8, 0u8],
{
}

} // verus!
