use deployerd::poll::{Action, Event, Failure, Phase, PollLoop, Step, WAIT_TIME_SECS};
use deployerd::probe::ProbeError;
use deployerd::snapshot::{FetchError, MaterializeError, Snapshot};

fn snapshot(bytes: &[u8]) -> Snapshot {
    Snapshot::from_payload(bytes.to_vec()).unwrap()
}

fn sleep(report: Option<Failure>) -> Option<Step> {
    Some(Step { action: Action::Sleep(60), report })
}

fn ask(action: Action) -> Option<Step> {
    Some(Step { action, report: None })
}

fn probing() -> PollLoop {
    let mut poll = PollLoop::new();
    assert_eq!(poll.step(Event::Start), ask(Action::Probe));
    poll
}

/// Runs one tick in which every collaborator succeeds.
fn deliver(poll: &mut PollLoop, revision: &str) {
    assert_eq!(poll.step(Event::Probed(Ok(revision.to_string()))), ask(Action::Fetch));
    assert_eq!(
        poll.step(Event::Fetched(Ok(snapshot(b"archive")))),
        ask(Action::Materialize(snapshot(b"archive")))
    );
    assert_eq!(poll.step(Event::Materialized(Ok(()))), sleep(None));
}

#[test]
fn a_new_loop_knows_nothing_and_is_idle() {
    let poll = PollLoop::new();
    assert_eq!(poll.known(), None);
    assert_eq!(poll.phase(), &Phase::Idle);
}

#[test]
fn the_interval_is_sixty_seconds() {
    assert_eq!(WAIT_TIME_SECS, 60);
    let mut poll = probing();
    let step = poll.step(Event::Probed(Err(ProbeError::Transport))).unwrap();
    assert_eq!(step.action, Action::Sleep(60));
}

#[test]
fn start_asks_for_a_probe() {
    let mut poll = PollLoop::new();
    assert_eq!(poll.step(Event::Start), ask(Action::Probe));
    assert_eq!(poll.phase(), &Phase::Probing);
    assert_eq!(poll.known(), None);
}

#[test]
fn first_tick_fetches_whatever_is_probed() {
    for revision in ["sha1", "", "0000000000000000000000000000000000000000", "main"] {
        let mut poll = probing();
        assert_eq!(poll.step(Event::Probed(Ok(revision.to_string()))), ask(Action::Fetch));
        assert_eq!(poll.phase(), &Phase::Fetching(revision.to_string()));
        assert_eq!(poll.known(), None);
    }
}

#[test]
fn a_full_tick_delivers_the_probed_revision() {
    let mut poll = probing();
    assert_eq!(poll.step(Event::Probed(Ok("sha1".to_string()))), ask(Action::Fetch));
    assert_eq!(poll.known(), None);
    assert_eq!(
        poll.step(Event::Fetched(Ok(snapshot(b"\x1f\x8b rest")))),
        ask(Action::Materialize(snapshot(b"\x1f\x8b rest")))
    );
    assert_eq!(poll.phase(), &Phase::Materializing("sha1".to_string()));
    assert_eq!(poll.known(), None);
    assert_eq!(poll.step(Event::Materialized(Ok(()))), sleep(None));
    assert_eq!(poll.phase(), &Phase::Sleeping);
    assert_eq!(poll.known(), Some(&"sha1".to_string()));
}

#[test]
fn an_unchanged_revision_is_skipped() {
    let mut poll = probing();
    deliver(&mut poll, "sha1");
    assert_eq!(poll.step(Event::Woke), ask(Action::Probe));
    assert_eq!(poll.step(Event::Probed(Ok("sha1".to_string()))), sleep(None));
    assert_eq!(poll.phase(), &Phase::Sleeping);
    assert_eq!(poll.known(), Some(&"sha1".to_string()));
    // Nothing is waiting for a snapshot or an unpacking.
    assert_eq!(poll.step(Event::Fetched(Ok(snapshot(b"x")))), None);
    assert_eq!(poll.step(Event::Materialized(Ok(()))), None);
    assert_eq!(poll.known(), Some(&"sha1".to_string()));
}

#[test]
fn a_failed_probe_changes_nothing_and_is_reported() {
    for cause in [ProbeError::Transport, ProbeError::NotFound, ProbeError::MalformedResponse] {
        let mut poll = probing();
        deliver(&mut poll, "sha1");
        assert_eq!(poll.step(Event::Woke), ask(Action::Probe));
        assert_eq!(poll.step(Event::Probed(Err(cause))), sleep(Some(Failure::Probe(cause))));
        assert_eq!(poll.phase(), &Phase::Sleeping);
        assert_eq!(poll.known(), Some(&"sha1".to_string()));
    }
}

#[test]
fn a_failed_probe_on_the_first_tick_leaves_nothing_known() {
    let mut poll = probing();
    assert_eq!(
        poll.step(Event::Probed(Err(ProbeError::NotFound))),
        sleep(Some(Failure::Probe(ProbeError::NotFound)))
    );
    assert_eq!(poll.known(), None);
    assert_eq!(poll.step(Event::Woke), ask(Action::Probe));
}

#[test]
fn a_failed_fetch_is_retried_on_the_next_tick() {
    for cause in [FetchError::Transport, FetchError::EmptyPayload] {
        let mut poll = probing();
        deliver(&mut poll, "sha1");
        assert_eq!(poll.step(Event::Woke), ask(Action::Probe));
        assert_eq!(poll.step(Event::Probed(Ok("sha2".to_string()))), ask(Action::Fetch));
        assert_eq!(poll.step(Event::Fetched(Err(cause))), sleep(Some(Failure::Fetch(cause))));
        assert_eq!(poll.known(), Some(&"sha1".to_string()));
        assert_eq!(poll.step(Event::Woke), ask(Action::Probe));
        assert_eq!(poll.step(Event::Probed(Ok("sha2".to_string()))), ask(Action::Fetch));
        assert_eq!(poll.phase(), &Phase::Fetching("sha2".to_string()));
    }
}

#[test]
fn a_failed_unpacking_is_retried_on_the_next_tick() {
    for cause in [MaterializeError::Decode, MaterializeError::Io] {
        let mut poll = probing();
        assert_eq!(poll.step(Event::Probed(Ok("sha1".to_string()))), ask(Action::Fetch));
        assert_eq!(
            poll.step(Event::Fetched(Ok(snapshot(b"bytes")))),
            ask(Action::Materialize(snapshot(b"bytes")))
        );
        assert_eq!(
            poll.step(Event::Materialized(Err(cause))),
            sleep(Some(Failure::Materialize(cause)))
        );
        assert_eq!(poll.known(), None);
        assert_eq!(poll.step(Event::Woke), ask(Action::Probe));
        assert_eq!(poll.step(Event::Probed(Ok("sha1".to_string()))), ask(Action::Fetch));
    }
}

#[test]
fn scenario_two_revisions_with_one_failed_unpacking() {
    let mut poll = probing();
    // The probe gives sha1; fetch and unpacking succeed.
    deliver(&mut poll, "sha1");
    assert_eq!(poll.known(), Some(&"sha1".to_string()));
    // The probe gives sha1 again: no fetch.
    assert_eq!(poll.step(Event::Woke), ask(Action::Probe));
    assert_eq!(poll.step(Event::Probed(Ok("sha1".to_string()))), sleep(None));
    assert_eq!(poll.known(), Some(&"sha1".to_string()));
    // The probe gives sha2, the unpacking fails.
    assert_eq!(poll.step(Event::Woke), ask(Action::Probe));
    assert_eq!(poll.step(Event::Probed(Ok("sha2".to_string()))), ask(Action::Fetch));
    assert_eq!(
        poll.step(Event::Fetched(Ok(snapshot(b"second")))),
        ask(Action::Materialize(snapshot(b"second")))
    );
    assert_eq!(
        poll.step(Event::Materialized(Err(MaterializeError::Io))),
        sleep(Some(Failure::Materialize(MaterializeError::Io)))
    );
    assert_eq!(poll.known(), Some(&"sha1".to_string()));
    // The probe gives sha2 again, and this time all succeeds.
    assert_eq!(poll.step(Event::Woke), ask(Action::Probe));
    deliver(&mut poll, "sha2");
    assert_eq!(poll.known(), Some(&"sha2".to_string()));
    assert_eq!(poll.phase(), &Phase::Sleeping);
}

#[test]
fn going_back_to_an_earlier_revision_fetches_again() {
    let mut poll = probing();
    deliver(&mut poll, "sha1");
    assert_eq!(poll.step(Event::Woke), ask(Action::Probe));
    deliver(&mut poll, "sha2");
    assert_eq!(poll.step(Event::Woke), ask(Action::Probe));
    assert_eq!(poll.step(Event::Probed(Ok("sha1".to_string()))), ask(Action::Fetch));
    assert_eq!(poll.known(), Some(&"sha2".to_string()));
}

#[test]
fn events_out_of_turn_are_ignored() {
    let mut poll = PollLoop::new();
    assert_eq!(poll.step(Event::Woke), None);
    assert_eq!(poll.step(Event::Probed(Ok("sha1".to_string()))), None);
    assert_eq!(poll.step(Event::Fetched(Ok(snapshot(b"x")))), None);
    assert_eq!(poll.step(Event::Materialized(Ok(()))), None);
    assert_eq!(poll, PollLoop::new());

    let mut poll = probing();
    assert_eq!(poll.step(Event::Start), None);
    assert_eq!(poll.step(Event::Woke), None);
    assert_eq!(poll.step(Event::Fetched(Err(FetchError::Transport))), None);
    assert_eq!(poll.step(Event::Materialized(Ok(()))), None);
    assert_eq!(poll.phase(), &Phase::Probing);
    assert_eq!(poll.known(), None);

    assert_eq!(poll.step(Event::Probed(Ok("sha1".to_string()))), ask(Action::Fetch));
    assert_eq!(poll.step(Event::Start), None);
    assert_eq!(poll.step(Event::Woke), None);
    assert_eq!(poll.step(Event::Probed(Ok("sha2".to_string()))), None);
    assert_eq!(poll.step(Event::Materialized(Ok(()))), None);
    assert_eq!(poll.phase(), &Phase::Fetching("sha1".to_string()));
    assert_eq!(poll.known(), None);

    assert_eq!(
        poll.step(Event::Fetched(Ok(snapshot(b"x")))),
        ask(Action::Materialize(snapshot(b"x")))
    );
    assert_eq!(poll.step(Event::Start), None);
    assert_eq!(poll.step(Event::Woke), None);
    assert_eq!(poll.step(Event::Probed(Ok("sha2".to_string()))), None);
    assert_eq!(poll.step(Event::Fetched(Ok(snapshot(b"y")))), None);
    assert_eq!(poll.phase(), &Phase::Materializing("sha1".to_string()));
    assert_eq!(poll.known(), None);

    assert_eq!(poll.step(Event::Materialized(Ok(()))), sleep(None));
    assert_eq!(poll.step(Event::Start), None);
    assert_eq!(poll.step(Event::Materialized(Ok(()))), None);
    assert_eq!(poll.phase(), &Phase::Sleeping);
    assert_eq!(poll.known(), Some(&"sha1".to_string()));
}

#[test]
fn failure_messages_name_phase_and_cause() {
    assert_eq!(Failure::Probe(ProbeError::Transport).message(), "probe failed: transport error");
    assert_eq!(Failure::Probe(ProbeError::NotFound).message(), "probe failed: reference not found");
    assert_eq!(
        Failure::Probe(ProbeError::MalformedResponse).message(),
        "probe failed: malformed response"
    );
    assert_eq!(Failure::Fetch(FetchError::Transport).message(), "fetch failed: transport error");
    assert_eq!(Failure::Fetch(FetchError::EmptyPayload).message(), "fetch failed: empty payload");
    assert_eq!(
        Failure::Materialize(MaterializeError::Decode).message(),
        "materialize failed: decode error"
    );
    assert_eq!(
        Failure::Materialize(MaterializeError::Io).message(),
        "materialize failed: I/O error"
    );
    assert_eq!(Failure::Fetch(FetchError::EmptyPayload).phase_name(), "fetch");
    assert_eq!(Failure::Fetch(FetchError::EmptyPayload).cause(), "empty payload");
}
