use occlum_exec_server::coordinator::{serving_line, Action, Coordinator, Event, Exit, Phase};
use occlum_exec_server::probe::{liveness, needs_status_check, LivenessResult, OpenOutcome};

fn feed(c: &mut Coordinator, event: Event) -> Action {
    assert!(c.accepts(event));
    c.step(event)
}

#[test]
fn fresh_start_serves_and_stops() {
    let mut c = Coordinator::new();
    assert_eq!(c.phase(), Phase::Start);
    assert_eq!(feed(&mut c, Event::Launched), Action::Probe);
    assert!(!needs_status_check(OpenOutcome::NotFound));
    let verdict = liveness(OpenOutcome::NotFound, false);
    assert_eq!(verdict, LivenessResult::NoArtifact);
    assert_eq!(feed(&mut c, Event::Probed(verdict)), Action::Bind);
    assert_eq!(feed(&mut c, Event::Bound(true)), Action::Acquire);
    assert_eq!(feed(&mut c, Event::Acquired(0)), Action::Serve);
    assert_eq!(c.phase(), Phase::Serving);
    assert_eq!(feed(&mut c, Event::StopObserved), Action::Release);
    let last = feed(&mut c, Event::Released(0));
    assert_eq!(last, Action::Finish(Exit::Stopped));
    assert!(c.is_done());
    assert!(Exit::Stopped.is_clean());
    assert_eq!(Exit::Stopped.announcement(), Some("server stopped"));
}

#[test]
fn already_running_ends_without_binding() {
    let mut c = Coordinator::new();
    assert_eq!(feed(&mut c, Event::Launched), Action::Probe);
    assert!(needs_status_check(OpenOutcome::Opened));
    let verdict = liveness(OpenOutcome::Opened, true);
    assert_eq!(verdict, LivenessResult::ArtifactAndLive);
    assert_eq!(
        feed(&mut c, Event::Probed(verdict)),
        Action::Finish(Exit::AlreadyRunning)
    );
    assert!(c.is_done());
    assert!(!c.accepts(Event::Bound(true)));
    assert!(!c.accepts(Event::Acquired(0)));
    assert!(Exit::AlreadyRunning.is_clean());
    assert_eq!(Exit::AlreadyRunning.announcement(), Some("server stared"));
}

#[test]
fn stale_socket_is_reclaimed_then_served() {
    let mut c = Coordinator::new();
    assert_eq!(feed(&mut c, Event::Launched), Action::Probe);
    let verdict = liveness(OpenOutcome::Opened, false);
    assert_eq!(verdict, LivenessResult::ArtifactButUnresponsive);
    assert_eq!(feed(&mut c, Event::Probed(verdict)), Action::Reclaim);
    assert_eq!(feed(&mut c, Event::Reclaimed(true)), Action::Bind);
    assert_eq!(feed(&mut c, Event::Bound(true)), Action::Acquire);
    assert_eq!(feed(&mut c, Event::Acquired(0)), Action::Serve);
    assert_eq!(feed(&mut c, Event::StopObserved), Action::Release);
    assert_eq!(
        feed(&mut c, Event::Released(0)),
        Action::Finish(Exit::Stopped)
    );
}

#[test]
fn acquire_failure_never_serves() {
    let mut c = Coordinator::new();
    feed(&mut c, Event::Launched);
    feed(&mut c, Event::Probed(LivenessResult::NoArtifact));
    assert_eq!(feed(&mut c, Event::Bound(true)), Action::Acquire);
    assert_eq!(
        feed(&mut c, Event::Acquired(-1)),
        Action::Finish(Exit::AcquireFailed(-1))
    );
    assert!(c.is_done());
    assert!(!c.accepts(Event::StopObserved));
    assert!(!c.accepts(Event::Released(0)));
    assert!(!Exit::AcquireFailed(-1).is_clean());
    assert_eq!(Exit::AcquireFailed(-1).announcement(), None);
}

#[test]
fn reclaim_failure_ends_the_run() {
    let mut c = Coordinator::new();
    feed(&mut c, Event::Launched);
    feed(&mut c, Event::Probed(LivenessResult::ArtifactButUnresponsive));
    assert_eq!(
        feed(&mut c, Event::Reclaimed(false)),
        Action::Finish(Exit::ReclaimFailed)
    );
    assert!(c.is_done());
}

#[test]
fn bind_failure_ends_before_acquire() {
    let mut c = Coordinator::new();
    feed(&mut c, Event::Launched);
    feed(&mut c, Event::Probed(LivenessResult::NoArtifact));
    assert_eq!(
        feed(&mut c, Event::Bound(false)),
        Action::Finish(Exit::BindFailed)
    );
    assert!(!c.accepts(Event::Acquired(0)));
}

#[test]
fn release_failure_is_reported_with_its_code() {
    let mut c = Coordinator::new();
    feed(&mut c, Event::Launched);
    feed(&mut c, Event::Probed(LivenessResult::NoArtifact));
    feed(&mut c, Event::Bound(true));
    feed(&mut c, Event::Acquired(0));
    feed(&mut c, Event::StopObserved);
    assert_eq!(
        feed(&mut c, Event::Released(22)),
        Action::Finish(Exit::ReleaseFailed(22))
    );
    assert!(!Exit::ReleaseFailed(22).is_clean());
}

#[test]
fn events_out_of_turn_are_not_accepted() {
    let c = Coordinator::new();
    assert!(c.accepts(Event::Launched));
    assert!(!c.accepts(Event::StopObserved));
    assert!(!c.accepts(Event::Probed(LivenessResult::NoArtifact)));
}

#[test]
fn inconclusive_open_defers_to_status_check() {
    assert!(needs_status_check(OpenOutcome::OtherError));
    assert_eq!(
        liveness(OpenOutcome::OtherError, true),
        LivenessResult::ArtifactAndLive
    );
    assert_eq!(
        liveness(OpenOutcome::OtherError, false),
        LivenessResult::ArtifactButUnresponsive
    );
    assert_eq!(
        liveness(OpenOutcome::NotFound, true),
        LivenessResult::NoArtifact
    );
}

#[test]
fn serving_line_names_the_address() {
    assert_eq!(
        serving_line("/opt/occlum_exec.sock"),
        "server stared on addr /opt/occlum_exec.sock"
    );
}

#[test]
fn a_full_run_initialises_and_destroys_once() {
    let events = [
        Event::Launched,
        Event::Probed(LivenessResult::ArtifactButUnresponsive),
        Event::Reclaimed(true),
        Event::Bound(true),
        Event::Acquired(0),
        Event::StopObserved,
        Event::Released(0),
    ];
    let mut c = Coordinator::new();
    let mut actions = Vec::new();
    for e in events {
        actions.push(feed(&mut c, e));
    }
    assert_eq!(actions.iter().filter(|a| **a == Action::Acquire).count(), 1);
    assert_eq!(actions.iter().filter(|a| **a == Action::Release).count(), 1);
    let acquire_at = actions.iter().position(|a| *a == Action::Acquire).unwrap();
    let release_at = actions.iter().position(|a| *a == Action::Release).unwrap();
    assert!(acquire_at < release_at);
    assert_eq!(actions.last(), Some(&Action::Finish(Exit::Stopped)));
}
