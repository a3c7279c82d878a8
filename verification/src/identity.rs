use vstd::prelude::*;

verus! {

/// A DNS identity name, held as its byte representation.
#[derive(Clone, Debug, PartialEq, Eq)]
pub struct Name {
    bytes: Vec<u8>,
}

impl View for Name {
    type V = Seq<u8>;

    closed spec fn view(&self) -> Seq<u8> {
        self.bytes@
    }
}

impl Name {
    pub fn new(bytes: Vec<u8>) -> (n: Name)
        ensures
            n@ == bytes@,
    {
        Name { bytes }
    }

    pub fn as_bytes(&self) -> (b: &Vec<u8>)
        ensures
            b@ == self@,
    {
        &self.bytes
    }
}

/// Why no verified peer identity is available for a connection.
#[derive(Clone, Copy, Debug, PartialEq, Eq, Structural)]
pub enum ReasonForNoPeerName {
    /// The connection showed no TLS ClientHello addressed to this proxy.
    NoTlsFromRemote,
    /// TLS was terminated but the remote presented no usable identity.
    NoPeerIdFromRemote,
    /// Detection never ran to completion for this connection.
    DetectionIncomplete,
}

/// The peer identity attached to a connection once admission has decided.
#[derive(Clone, Debug, PartialEq, Eq)]
pub enum PeerIdentity {
    /// Cryptographically validated identity from a terminated TLS session.
    Verified(Name),
    Unverified(ReasonForNoPeerName),
}

/// An optional capability, carrying the reason for its absence when missing.
#[derive(Clone, Debug)]
pub enum Conditional<T> {
    Present(T),
    Absent(ReasonForNoPeerName),
}

/// Handle standing for the local TLS server configuration; its contents
/// belong to the subsystem that terminates handshakes.
#[derive(Clone, Copy, Debug)]
pub struct TlsConfig;

/// Capability of the local identity provider: the name to match incoming
/// SNI against, and the server configuration used to terminate TLS.
pub trait HasConfig {
    fn tls_server_name(&self) -> Name;

    fn tls_server_config(&self) -> TlsConfig;
}

/// A certificate name is a wildcard when its first label is `*`.
pub open spec fn spec_is_wildcard(name: Seq<u8>) -> bool {
    name.len() >= 2 && name[0] == 42u8 && name[1] == 46u8
}

/// The identity recorded for a connection that showed no TLS.
pub fn no_tls_identity() -> (r: PeerIdentity)
    ensures
        r == PeerIdentity::Unverified(ReasonForNoPeerName::NoTlsFromRemote),
{
    PeerIdentity::Unverified(ReasonForNoPeerName::NoTlsFromRemote)
}

/// What identity a terminated session yields, given the DNS names of the
/// peer's leaf certificate in order: the first name, unless there is none or
/// it is a wildcard, which is not resolved to an identity.
pub fn identity_from_dns_names(names: Vec<Vec<u8>>) -> (r: PeerIdentity)
    ensures
        names@.len() == 0 ==> r == PeerIdentity::Unverified(
            ReasonForNoPeerName::NoPeerIdFromRemote,
        ),
        names@.len() > 0 && spec_is_wildcard(names@[0]@) ==> r == PeerIdentity::Unverified(
            ReasonForNoPeerName::NoPeerIdFromRemote,
        ),
        names@.len() > 0 && !spec_is_wildcard(names@[0]@) ==> (r matches PeerIdentity::Verified(n)
            && n@ == names@[0]@),
{
    let mut names = names;
    if names.len() == 0 {
        return PeerIdentity::Unverified(ReasonForNoPeerName::NoPeerIdFromRemote);
    }
    let first = names.remove(0);
    // 42 is `*`, 46 is `.`: a leading `*.` marks a wildcard name.
    let wildcard = first.len() >= 2 && first[0] == 42u8 && first[1] == 46u8;
    if wildcard {
        PeerIdentity::Unverified(ReasonForNoPeerName::NoPeerIdFromRemote)
    } else {
        PeerIdentity::Verified(Name::new(first))
    }
}

} // verus!
