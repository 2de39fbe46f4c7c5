use vstd::prelude::*;
use crate::address::{encode_ipv4, encoded_ipv4, Endpoint};

verus! {

/// Status code carried in the second byte of a reply frame.
#[derive(Clone, Copy, Debug, PartialEq, Eq, Structural)]
pub enum ReplyCode {
    Succeeded,
    GeneralFailure,
    NotAllowedByRuleset,
    NetworkUnreachable,
    HostUnreachable,
    ConnectionRefused,
    TtlExpired,
    CommandNotSupported,
    AddressTypeNotSupported,
}

impl ReplyCode {
    /// The wire value of each status.
    pub open spec fn spec_byte(self) -> u8 {
        match self {
            ReplyCode::Succeeded => 0x00,
            ReplyCode::GeneralFailure => 0x01,
            ReplyCode::NotAllowedByRuleset => 0x02,
            ReplyCode::NetworkUnreachable => 0x03,
            ReplyCode::HostUnreachable => 0x04,
            ReplyCode::ConnectionRefused => 0x05,
            ReplyCode::TtlExpired => 0x06,
            ReplyCode::CommandNotSupported => 0x07,
            ReplyCode::AddressTypeNotSupported => 0x08,
        }
    }

    pub fn byte(self) -> (r: u8)
        ensures
            r == self.spec_byte(),
    {
        match self {
            ReplyCode::Succeeded => 0x00,
            ReplyCode::GeneralFailure => 0x01,
            ReplyCode::NotAllowedByRuleset => 0x02,
            ReplyCode::NetworkUnreachable => 0x03,
            ReplyCode::HostUnreachable => 0x04,
            ReplyCode::ConnectionRefused => 0x05,
            ReplyCode::TtlExpired => 0x06,
            ReplyCode::CommandNotSupported => 0x07,
            ReplyCode::AddressTypeNotSupported => 0x08,
        }
    }
}

/// The reply frame: version, status, reserved zero, then the bound address
/// as an IPv4 address field.
pub open spec fn reply_frame(version: u8, code: ReplyCode, bound: Endpoint) -> Seq<u8> {
    seq![version, code.spec_byte(), 0x00] + encoded_ipv4(bound.octets@, bound.port)
}

/// Serialises a reply frame.
pub fn encode_reply(version: u8, code: ReplyCode, bound: &Endpoint) -> (r: Vec<u8>)
    ensures
        r@ == reply_frame(version, code, *bound),
        r@.len() == 10,
{
    let mut r = vec![version, code.byte(), 0x00];
    let mut field = encode_ipv4(bound);
    r.append(&mut field);
    assert(r@ =~= reply_frame(version, code, *bound));
    r
}

} // verus!
