use vstd::prelude::*;

verus! {

/// The request asked for a command other than establishing a TCP stream.
#[derive(Clone, Copy, Debug, PartialEq, Eq, Structural)]
pub struct CommandNotAllowedError();

impl CommandNotAllowedError {
    pub fn message(&self) -> (r: &'static str)
        ensures
            r@ == "Method is not allowed"@,
    {
        "Method is not allowed"
    }
}

/// The request carried an address type that this server does not decode.
#[derive(Clone, Copy, Debug, PartialEq, Eq, Structural)]
pub struct AddressNotAllowed();

impl AddressNotAllowed {
    pub fn message(&self) -> (r: &'static str)
        ensures
            r@ == "Address type is not allowed"@,
    {
        "Address type is not allowed"
    }
}

/// Why a connect request was refused. Every one of these ends the session
/// before any reply is sent.
#[derive(Clone, Copy, Debug, PartialEq, Eq, Structural)]
pub enum RequestError {
    CommandNotAllowed(CommandNotAllowedError),
    AddressNotAllowed(AddressNotAllowed),
    /// A domain name with a length byte of zero.
    EmptyDomainName,
    /// A domain name whose bytes are not valid UTF-8.
    InvalidDomainName,
}

} // verus!
