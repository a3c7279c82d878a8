use vstd::prelude::*;
use crate::addr::Addrs;

verus! {

#[verifier::external_type_specification]
#[verifier::external_body]
#[verifier::reject_recursive_types(T)]
#[verifier::reject_recursive_types(S)]
pub struct ExIndexSet<T, S>(indexmap::IndexSet<T, S>);

/// The ports an indexed set holds.
pub uninterp spec fn index_set_ports(s: indexmap::IndexSet<u16>) -> Set<u16>;

/// Relies on indexmap's IndexSet::new: a new set is empty.
#[verifier::external_body]
fn index_set_new() -> (s: indexmap::IndexSet<u16>)
    ensures
        index_set_ports(s) == Set::<u16>::empty(),
{
    indexmap::IndexSet::new()
}

/// Relies on indexmap's IndexSet::insert: afterwards the set holds the given
/// port and everything it held before.
#[verifier::external_body]
fn index_set_insert(s: &mut indexmap::IndexSet<u16>, port: u16)
    ensures
        index_set_ports(*final(s)) == index_set_ports(*old(s)).insert(port),
{
    s.insert(port);
}

/// Relies on indexmap's IndexSet::contains: membership by u16 equality.
#[verifier::external_body]
fn index_set_contains(s: &indexmap::IndexSet<u16>, port: u16) -> (b: bool)
    ensures
        b == index_set_ports(*s).contains(port),
{
    s.contains(&port)
}

/// The destination ports whose connections bypass protocol detection; built
/// once at startup and only read afterwards.
pub struct SkipPorts {
    ports: indexmap::IndexSet<u16>,
}

impl View for SkipPorts {
    type V = Set<u16>;

    closed spec fn view(&self) -> Set<u16> {
        index_set_ports(self.ports)
    }
}

impl SkipPorts {
    pub fn new() -> (s: SkipPorts)
        ensures
            s@ == Set::<u16>::empty(),
    {
        SkipPorts { ports: index_set_new() }
    }

    pub fn insert(&mut self, port: u16)
        ensures
            final(self)@ == old(self)@.insert(port),
    {
        index_set_insert(&mut self.ports, port);
    }

    pub fn contains(&self, port: u16) -> (b: bool)
        ensures
            b == self@.contains(port),
    {
        index_set_contains(&self.ports, port)
    }
}

/// Which path one connection takes.
#[derive(Clone, Copy, Debug, PartialEq, Eq, Structural)]
pub enum Branch {
    Detect,
    Forward,
}

/// The branch the dispatcher picks: forwarding exactly when the destination
/// port is configured to skip detection.
pub open spec fn spec_branch(skips: Set<u16>, port: u16) -> Branch {
    if skips.contains(port) {
        Branch::Forward
    } else {
        Branch::Detect
    }
}

/// Port-keyed dispatcher: routes a connection into the forwarding service
/// when its destination port is in the skip set, into the detection service
/// otherwise. Always ready: the decision reads immutable metadata only.
pub struct Detect<D, F> {
    detect: D,
    forward: F,
    skip_ports: SkipPorts,
}

impl<D, F> Detect<D, F> {
    pub closed spec fn spec_detect(self) -> D {
        self.detect
    }

    pub closed spec fn spec_forward(self) -> F {
        self.forward
    }

    pub closed spec fn spec_skip_ports(self) -> Set<u16> {
        self.skip_ports@
    }

    pub fn new(detect: D, forward: F, skip_ports: SkipPorts) -> (s: Self)
        ensures
            s.spec_detect() == detect,
            s.spec_forward() == forward,
            s.spec_skip_ports() == skip_ports@,
    {
        Detect { detect, forward, skip_ports }
    }

    /// The detection-path service.
    pub fn detect_service(&self) -> (d: &D)
        ensures
            *d == self.spec_detect(),
    {
        &self.detect
    }

    /// The forwarding-path service.
    pub fn forward_service(&self) -> (f: &F)
        ensures
            *f == self.spec_forward(),
    {
        &self.forward
    }

    /// The routing decision for one connection, made from its addressing
    /// metadata alone: exactly one branch, keyed by destination port.
    pub fn branch_for(&self, addrs: &Addrs) -> (r: Branch)
        ensures
            r == spec_branch(self.spec_skip_ports(), addrs.target.port),
    {
        if self.skip_ports.contains(addrs.target_addr().port) {
            Branch::Forward
        } else {
            Branch::Detect
        }
    }
}

/// The tagged outcome of dispatch: the handler that whichever branch was
/// invoked produced; later operations delegate to that variant.
#[derive(Clone, Debug)]
pub enum Accept<D, F> {
    Detect(D),
    Forward(F),
}

/// The uniform error at the dispatch boundary: the invoked branch's failure,
/// carried verbatim under its branch's tag.
#[derive(Clone, Debug, PartialEq, Eq)]
pub enum BranchError<DE, FE> {
    Detect(DE),
    Forward(FE),
}

/// Mutual exclusivity: each connection is routed into exactly one of the two
/// branches, and which one is determined solely by whether its destination
/// port is a member of the skip set.
pub proof fn lemma_mutual_exclusivity(skips: Set<u16>, port: u16)
    ensures
        spec_branch(skips, port) == Branch::Forward <==> skips.contains(port),
        spec_branch(skips, port) == Branch::Detect <==> !skips.contains(port),
        (spec_branch(skips, port) == Branch::Forward) != (spec_branch(skips, port)
            == Branch::Detect),
{
}

} // verus!
