use vstd::prelude::*;
use crate::address::{decoded_of, Decoded, Destination, DestinationView, Endpoint, Parsed};
use crate::error::RequestError;
use crate::handshake::{
    method_reply, parse_connect_request, parse_method_request, spec_connect_request,
    spec_method_reply, spec_method_request,
};
use crate::reply::{encode_reply, reply_frame, ReplyCode};

verus! {

/// One address that name resolution gave for a domain destination.
#[derive(Clone, Copy, Debug, PartialEq, Eq)]
pub enum Resolved {
    V4(Endpoint),
    /// An IPv6 address, which a reply frame cannot carry.
    V6,
}

/// The address reported in a reply when no destination could be chosen.
pub open spec fn unspecified() -> Endpoint {
    Endpoint { octets: [0u8, 0u8, 0u8, 0u8], port: 0 }
}

impl Destination {
    /// Whether the destination is a name that must be resolved before dialing.
    pub fn needs_resolution(&self) -> (r: bool)
        ensures
            r == (self@ is Domain),
    {
        match self {
            Destination::Ipv4(_) => false,
            Destination::Domain { .. } => true,
        }
    }
}

/// Which endpoint to dial, or which status to refuse with: an IPv4
/// destination is dialed as it is; a name is dialed at the first address it
/// resolved to. A name that resolved to nothing is a general failure, and
/// one whose first address is IPv6 is refused as an unsupported address type.
pub open spec fn spec_dial_target(dest: DestinationView, resolved: Seq<Resolved>) -> Result<(Seq<u8>, u16), ReplyCode> {
    match dest {
        DestinationView::Ipv4 { octets, port } => Ok((octets, port)),
        DestinationView::Domain { .. } => if resolved.len() == 0 {
            Err(ReplyCode::GeneralFailure)
        } else {
            match resolved[0] {
                Resolved::V4(ep) => Ok((ep.octets@, ep.port)),
                Resolved::V6 => Err(ReplyCode::AddressTypeNotSupported),
            }
        },
    }
}

/// Chooses the endpoint to dial for a destination, given what resolving it
/// gave (ignored for an IPv4 destination).
pub fn dial_target(dest: &Destination, resolved: &Vec<Resolved>) -> (r: Result<Endpoint, ReplyCode>)
    ensures
        match (r, spec_dial_target(dest@, resolved@)) {
            (Ok(ep), Ok((octets, port))) => ep.octets@ == octets && ep.port == port,
            (Err(c), Err(d)) => c == d,
            _ => false,
        },
{
    match dest {
        Destination::Ipv4(ep) => Ok(*ep),
        Destination::Domain { .. } => {
            if resolved.len() == 0 {
                Err(ReplyCode::GeneralFailure)
            } else {
                match resolved[0] {
                    Resolved::V4(ep) => Ok(ep),
                    Resolved::V6 => Err(ReplyCode::AddressTypeNotSupported),
                }
            }
        },
    }
}

/// The reply that ends the connect step: success with the dialed endpoint
/// when the dial succeeded, a general failure with that endpoint when it did
/// not, and the refusal status with the unspecified address when nothing
/// could be dialed.
pub open spec fn spec_connect_reply(version: u8, target: Result<Endpoint, ReplyCode>, connected: bool) -> Seq<u8> {
    match target {
        Ok(ep) => if connected {
            reply_frame(version, ReplyCode::Succeeded, ep)
        } else {
            reply_frame(version, ReplyCode::GeneralFailure, ep)
        },
        Err(code) => reply_frame(version, code, unspecified()),
    }
}

/// Serialises the reply that ends the connect step.
pub fn connect_reply(version: u8, target: &Result<Endpoint, ReplyCode>, connected: bool) -> (r: Vec<u8>)
    ensures
        r@ == spec_connect_reply(version, *target, connected),
{
    match target {
        Ok(ep) => if connected {
            encode_reply(version, ReplyCode::Succeeded, ep)
        } else {
            encode_reply(version, ReplyCode::GeneralFailure, ep)
        },
        Err(code) => {
            let zero = Endpoint { octets: [0u8, 0u8, 0u8, 0u8], port: 0 };
            assert(zero == unspecified());
            encode_reply(version, *code, &zero)
        },
    }
}

/// Relaying starts exactly when a destination was chosen and dialed.
pub fn starts_relay(target: &Result<Endpoint, ReplyCode>, connected: bool) -> (r: bool)
    ensures
        r == (target is Ok && connected),
{
    target.is_ok() && connected
}

/// Where a session stands.
#[derive(Clone, Copy, Debug, PartialEq, Eq, Structural)]
pub enum Phase {
    /// Waiting for the method-negotiation request.
    AwaitingMethods,
    /// Waiting for the connect request.
    AwaitingRequest,
    /// Waiting for the outcome of resolving and dialing the destination.
    AwaitingDial,
    /// The reply was sent and bytes are being relayed.
    Relaying,
    /// The session is over; both sockets are to be shut down.
    Closed,
}

/// What a session asks for after looking at the bytes received in its
/// current phase.
#[derive(Debug)]
pub enum HandshakeStep {
    /// Read until this many bytes are at hand, then look again.
    Need(usize),
    /// Send these bytes; the first `consumed` bytes received are used up.
    Reply { bytes: Vec<u8>, consumed: usize },
    /// Resolve and dial this destination; the first `consumed` bytes
    /// received are used up.
    Connect { dest: Destination, consumed: usize },
    /// Close the client socket without any reply.
    Abort(RequestError),
}

/// `step` sends exactly `data`, having used up `used` bytes.
pub open spec fn replies(step: HandshakeStep, data: Seq<u8>, used: usize) -> bool {
    match step {
        HandshakeStep::Reply { bytes, consumed } => bytes@ == data && consumed == used,
        _ => false,
    }
}

/// `step` hands out the destination `d` to be dialed, having used up `used`
/// bytes.
pub open spec fn connects(step: HandshakeStep, d: DestinationView, used: nat) -> bool {
    match step {
        HandshakeStep::Connect { dest, consumed } => dest@ == d && consumed == used,
        _ => false,
    }
}

/// How a session in a handshake phase moves on the bytes `b`, going from
/// `before` to `after` and asking for `step`.
pub open spec fn handshake_moves(before: Session, b: Seq<u8>, after: Session, step: HandshakeStep) -> bool {
    &&& after.spec_replied() == before.spec_replied()
    &&& before.spec_phase() is AwaitingMethods ==> match spec_method_request(b) {
        Parsed::Need(n) => step matches HandshakeStep::Need(m) && m == n
            && after == before,
        Parsed::Done(v, used) => replies(step, spec_method_reply(v), used)
            && after.spec_phase() == Phase::AwaitingRequest
            && after.spec_version() == v,
    }
    &&& before.spec_phase() is AwaitingRequest ==> match spec_connect_request(b) {
        Decoded::Need(n) => step matches HandshakeStep::Need(m) && m == n
            && after == before,
        Decoded::Done(d, used) => connects(step, d, used)
            && after.spec_phase() == Phase::AwaitingDial
            && after.spec_version() == before.spec_version(),
        Decoded::Fail(e) => step == HandshakeStep::Abort(e)
            && after.spec_phase() == Phase::Closed,
    }
}

/// The negotiation state of one client session. A connect reply is sent at
/// most once, and only after a destination was decoded.
pub struct Session {
    phase: Phase,
    version: u8,
    replied: Ghost<bool>,
}

impl Session {
    pub closed spec fn spec_phase(&self) -> Phase {
        self.phase
    }

    /// The version byte of the method-negotiation request.
    pub closed spec fn spec_version(&self) -> u8 {
        self.version
    }

    /// Whether the connect reply has been sent.
    pub closed spec fn spec_replied(&self) -> bool {
        self.replied@
    }

    /// No reply before the dial; a relay only after one.
    pub closed spec fn wf(&self) -> bool {
        &&& (self.phase is AwaitingMethods || self.phase is AwaitingRequest
            || self.phase is AwaitingDial) ==> !self.replied@
        &&& self.phase is Relaying ==> self.replied@
    }

    pub fn new() -> (r: Session)
        ensures
            r.wf(),
            r.spec_phase() == Phase::AwaitingMethods,
            !r.spec_replied(),
    {
        Session { phase: Phase::AwaitingMethods, version: 0, replied: Ghost(false) }
    }

    pub fn phase(&self) -> (r: Phase)
        ensures
            r == self.spec_phase(),
    {
        self.phase
    }

    /// Looks at the bytes received in the current handshake phase. A
    /// complete method request is answered with "no authentication
    /// required"; a complete connect request hands its destination out to be
    /// dialed; a refused one closes the session, with no reply.
    pub fn on_bytes(&mut self, buf: &[u8]) -> (step: HandshakeStep)
        requires
            old(self).wf(),
            old(self).spec_phase() is AwaitingMethods || old(self).spec_phase() is AwaitingRequest,
        ensures
            final(self).wf(),
            handshake_moves(*old(self), buf@, *final(self), step),
    {
        if self.phase == Phase::AwaitingMethods {
            match parse_method_request(buf) {
                Parsed::Need(n) => HandshakeStep::Need(n),
                Parsed::Done(v, used) => {
                    self.phase = Phase::AwaitingRequest;
                    self.version = v;
                    HandshakeStep::Reply { bytes: method_reply(v), consumed: used }
                },
            }
        } else {
            let r = parse_connect_request(buf);
            assert(decoded_of(r) == spec_connect_request(buf@));
            match r {
                Ok(Parsed::Need(n)) => HandshakeStep::Need(n),
                Ok(Parsed::Done(dest, used)) => {
                    self.phase = Phase::AwaitingDial;
                    HandshakeStep::Connect { dest, consumed: used }
                },
                Err(e) => {
                    self.phase = Phase::Closed;
                    HandshakeStep::Abort(e)
                },
            }
        }
    }

    /// Takes the outcome of choosing and dialing a destination, and gives
    /// the one connect reply of the session. Relaying follows exactly when
    /// the dial succeeded.
    pub fn on_dial(&mut self, target: &Result<Endpoint, ReplyCode>, connected: bool) -> (r: Vec<u8>)
        requires
            old(self).wf(),
            old(self).spec_phase() is AwaitingDial,
        ensures
            final(self).wf(),
            r@ == spec_connect_reply(old(self).spec_version(), *target, connected),
            final(self).spec_replied(),
            final(self).spec_version() == old(self).spec_version(),
            final(self).spec_phase() == (if target is Ok && connected {
                Phase::Relaying
            } else {
                Phase::Closed
            }),
    {
        let r = connect_reply(self.version, target, connected);
        self.replied = Ghost(true);
        if starts_relay(target, connected) {
            self.phase = Phase::Relaying;
        } else {
            self.phase = Phase::Closed;
        }
        r
    }

    /// Ends the session: from here on both sockets are shut down.
    pub fn close(&mut self)
        ensures
            final(self).spec_phase() == Phase::Closed,
            final(self).spec_replied() == old(self).spec_replied(),
            final(self).spec_version() == old(self).spec_version(),
            old(self).wf() ==> final(self).wf(),
    {
        self.phase = Phase::Closed;
    }
}

/// A session waiting for its connect request that receives one with any
/// command but connect refuses the command and is closed, and it has sent no
/// reply.
pub proof fn lemma_refused_command_closes_without_reply(
    before: Session,
    b: Seq<u8>,
    after: Session,
    step: HandshakeStep,
)
    requires
        before.wf(),
        before.spec_phase() is AwaitingRequest,
        b.len() >= 4,
        b[1] != crate::handshake::CMD_CONNECT,
        handshake_moves(before, b, after, step),
    ensures
        step == HandshakeStep::Abort(
            RequestError::CommandNotAllowed(crate::error::CommandNotAllowedError()),
        ),
        after.spec_phase() == Phase::Closed,
        !after.spec_replied(),
{
}

} // verus!
