use tls_admit::detector::{
    accept_call_result, race_step, Accept, AcceptError, AcceptLayer, RaceEvent, RaceState,
};

type St = RaceState<&'static str, &'static str>;
type Ev = RaceEvent<&'static str, &'static str>;

#[test]
fn both_branches_succeeding_resolves_with_the_target() {
    let s: St = RaceState::Running;
    let s = race_step(s, Ev::Detected(Ok("http")));
    assert_eq!(s, RaceState::Detected("http"));
    let s = race_step(s, Ev::Ready(Ok(())));
    assert_eq!(s, RaceState::Resolved(Ok("http")));
}

#[test]
fn readiness_first_then_detection_also_resolves() {
    let s: St = RaceState::Running;
    let s = race_step(s, Ev::Ready(Ok(())));
    assert_eq!(s, RaceState::Ready);
    let s = race_step(s, Ev::Detected(Ok("tls")));
    assert_eq!(s, RaceState::Resolved(Ok("tls")));
}

#[test]
fn early_detection_failure_resolves_without_waiting_for_readiness() {
    // The first event is the detection failure: the race is terminal right
    // there, and the still-pending readiness branch is cancelled unobserved.
    let s: St = RaceState::Running;
    let s = race_step(s, Ev::Detected(Err("boom")));
    assert_eq!(s, RaceState::Resolved(Err(AcceptError::Detection("boom"))));
}

#[test]
fn early_readiness_failure_cancels_detection() {
    let s: St = RaceState::Running;
    let s = race_step(s, Ev::Ready(Err("not ready")));
    assert_eq!(s, RaceState::Resolved(Err(AcceptError::Readiness("not ready"))));
}

#[test]
fn late_readiness_failure_after_successful_detection() {
    let s: St = RaceState::Running;
    let s = race_step(s, Ev::Detected(Ok("http")));
    let s = race_step(s, Ev::Ready(Err("gone")));
    assert_eq!(s, RaceState::Resolved(Err(AcceptError::Readiness("gone"))));
}

#[test]
fn late_detection_failure_after_readiness() {
    let s: St = RaceState::Running;
    let s = race_step(s, Ev::Ready(Ok(())));
    let s = race_step(s, Ev::Detected(Err("bad bytes")));
    assert_eq!(s, RaceState::Resolved(Err(AcceptError::Detection("bad bytes"))));
}

#[test]
fn acceptor_call_failure_is_tagged_as_the_call_stage() {
    let ok: Result<u32, &str> = Ok(7);
    assert_eq!(accept_call_result(ok), Ok(7));
    let err: Result<u32, &str> = Err("refused");
    assert_eq!(accept_call_result(err), Err(AcceptError::AcceptCall("refused")));
}

#[test]
fn layer_builds_the_service_around_an_acceptor() {
    let layer = AcceptLayer::new("sniffer");
    let _svc: Accept<&str, &str> = layer.layer("acceptor");
    let _svc2 = Accept::new("sniffer", "acceptor");
}
