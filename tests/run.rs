use tapmusic::request::{plan, plan_at, ArgError};
use tapmusic::session::{exit_code, Action, Event, RunError, Session};
use tapmusic::stamp::LocalTime;

fn noon() -> LocalTime {
    LocalTime { year: 2024, month: 6, day: 1, hour: 12, minute: 0, second: 0 }
}

#[test]
fn scenario_default_name() {
    let p = plan_at("alice", "4", "7d", "t", "f", "", &noon()).unwrap();
    assert_eq!(p.url, "https://tapmusic.net/collage.php?user=alice&type=7day&size=4x4&caption=true");
    assert_eq!(p.file_name, "alice_7day_4x4_2024-06-01_120000.jpg");
}

#[test]
fn scenario_given_name() {
    let p = plan_at("alice", "4", "7d", "t", "f", "myart.jpg", &noon()).unwrap();
    assert_eq!(p.url, "https://tapmusic.net/collage.php?user=alice&type=7day&size=4x4&caption=true");
    assert_eq!(p.file_name, "myart.jpg");
    let q = plan("alice", "4", "7d", "t", "f", "myart.jpg").unwrap();
    assert_eq!(q.file_name, "myart.jpg");
    assert_eq!(q.url, p.url);
}

#[test]
fn plan_rejects_each_value() {
    assert_eq!(plan_at("a", "6", "7d", "t", "t", "", &noon()).unwrap_err(), ArgError::Size);
    assert_eq!(plan_at("a", "4", "2w", "t", "t", "", &noon()).unwrap_err(), ArgError::Time);
    assert_eq!(plan_at("a", "4", "7d", "x", "t", "", &noon()).unwrap_err(), ArgError::Caption);
    assert_eq!(plan_at("a", "4", "7d", "t", "", "", &noon()).unwrap_err(), ArgError::Playcount);
    assert_eq!(plan_at("a", "", "", "", "", "", &noon()).unwrap_err(), ArgError::Size);
}

#[test]
fn plan_overall_with_both_flags() {
    let p = plan_at("bob", "10", "all", "t", "t", "", &noon()).unwrap();
    assert_eq!(
        p.url,
        "https://tapmusic.net/collage.php?user=bob&type=overall&size=10x10&caption=true&playcount=true"
    );
    assert_eq!(p.file_name, "bob_overall_10x10_2024-06-01_120000.jpg");
}

#[test]
fn existing_target_stops_before_request() {
    let (s, a) = Session::start();
    assert_eq!(a, Action::CheckTarget);
    let (s, a) = s.step(Event::TargetChecked(true));
    assert_eq!(a, Action::Finish(Err(RunError::OutputCollision)));
    assert_eq!(exit_code(&Err(RunError::OutputCollision)), 1);
    let (s, a) = s.step(Event::Responded(200));
    assert_eq!(a, Action::Idle);
    let (_, a) = s.step(Event::BodyRead(true));
    assert_eq!(a, Action::Idle);
}

#[test]
fn server_error_writes_nothing() {
    let (s, _) = Session::start();
    let (s, a) = s.step(Event::TargetChecked(false));
    assert_eq!(a, Action::Request);
    let (s, a) = s.step(Event::Responded(500));
    assert_eq!(a, Action::Finish(Err(RunError::FetchFailure)));
    assert_ne!(exit_code(&Err(RunError::FetchFailure)), 0);
    assert_eq!(s, Session::Finished);
    let (_, a) = s.step(Event::BodyRead(true));
    assert_eq!(a, Action::Idle);
}

#[test]
fn successful_run() {
    let (s, _) = Session::start();
    let (s, _) = s.step(Event::TargetChecked(false));
    let (s, a) = s.step(Event::Responded(200));
    assert_eq!(a, Action::ReadBody);
    let (s, a) = s.step(Event::BodyRead(true));
    assert_eq!(a, Action::WriteFile);
    let (s, a) = s.step(Event::Written(true));
    assert_eq!(a, Action::Finish(Ok(())));
    assert_eq!(s, Session::Finished);
    assert_eq!(exit_code(&Ok(())), 0);
}

#[test]
fn status_class_boundaries() {
    let cases = [(199u16, false), (200, true), (204, true), (299, true), (300, false), (404, false), (0, false), (1000, false)];
    for (code, ok) in cases {
        let (_, a) = Session::Requesting.step(Event::Responded(code));
        if ok {
            assert_eq!(a, Action::ReadBody);
        } else {
            assert_eq!(a, Action::Finish(Err(RunError::FetchFailure)));
        }
    }
}

#[test]
fn request_and_body_failures() {
    let (_, a) = Session::Requesting.step(Event::RequestFailed);
    assert_eq!(a, Action::Finish(Err(RunError::FetchFailure)));
    let (_, a) = Session::Receiving.step(Event::BodyRead(false));
    assert_eq!(a, Action::Finish(Err(RunError::FetchFailure)));
}

#[test]
fn failed_write_discards_file() {
    let (s, a) = Session::Writing.step(Event::Written(false));
    assert_eq!(a, Action::Discard(RunError::PersistFailure));
    assert_eq!(s, Session::Finished);
    assert_eq!(exit_code(&Err(RunError::PersistFailure)), 3);
}

#[test]
fn event_out_of_turn_is_ignored() {
    let (s, a) = Session::CheckingTarget.step(Event::Responded(200));
    assert_eq!(a, Action::Idle);
    assert_eq!(s, Session::CheckingTarget);
}
