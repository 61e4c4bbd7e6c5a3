//! The decisions of one run: check the target, fetch, save, and how the run ends.
use vstd::prelude::*;

verus! {

/// Why a run failed.
#[derive(Clone, Copy, Debug, PartialEq, Eq)]
pub enum RunError {
    /// A file already stands at the output path.
    OutputCollision,
    /// The request failed, or the service answered with a non-success status.
    FetchFailure,
    /// The collage could not be written to disk.
    PersistFailure,
}

/// Where a run stands.
#[derive(Clone, Copy, Debug, PartialEq, Eq)]
pub enum Session {
    CheckingTarget,
    Requesting,
    Receiving,
    Writing,
    Finished,
}

/// What the surrounding program observed after carrying out the last action.
#[derive(Clone, Copy, Debug, PartialEq, Eq)]
pub enum Event {
    /// Whether something already exists at the output path.
    TargetChecked(bool),
    /// The service answered with this HTTP status code.
    Responded(u16),
    /// The request could not be completed.
    RequestFailed,
    /// Whether the response body was read in full.
    BodyRead(bool),
    /// Whether the body was written to the output file in full.
    Written(bool),
}

/// What the surrounding program is to do next.
#[derive(Clone, Copy, Debug, PartialEq, Eq)]
pub enum Action {
    /// Look whether the output path is taken.
    CheckTarget,
    /// Send the one GET request.
    Request,
    /// Read the whole response body.
    ReadBody,
    /// Create the output file and write the body to it.
    WriteFile,
    /// Remove the partly written output file, then end with this error.
    Discard(RunError),
    /// End the run with this outcome.
    Finish(Result<(), RunError>),
    /// Nothing: the event did not belong to this stage.
    Idle,
}

/// Whether an HTTP status code is in the success class.
pub open spec fn is_success(status: u16) -> bool {
    200 <= status < 300
}

/// The step taken on an event.
pub open spec fn next(s: Session, e: Event) -> (Session, Action) {
    match (s, e) {
        (Session::CheckingTarget, Event::TargetChecked(exists)) => if exists {
            (Session::Finished, Action::Finish(Err(RunError::OutputCollision)))
        } else {
            (Session::Requesting, Action::Request)
        },
        (Session::Requesting, Event::Responded(status)) => if is_success(status) {
            (Session::Receiving, Action::ReadBody)
        } else {
            (Session::Finished, Action::Finish(Err(RunError::FetchFailure)))
        },
        (Session::Requesting, Event::RequestFailed) => (
            Session::Finished,
            Action::Finish(Err(RunError::FetchFailure)),
        ),
        (Session::Receiving, Event::BodyRead(ok)) => if ok {
            (Session::Writing, Action::WriteFile)
        } else {
            (Session::Finished, Action::Finish(Err(RunError::FetchFailure)))
        },
        (Session::Writing, Event::Written(ok)) => if ok {
            (Session::Finished, Action::Finish(Ok(())))
        } else {
            (Session::Finished, Action::Discard(RunError::PersistFailure))
        },
        _ => (s, Action::Idle),
    }
}

/// The actions taken on a sequence of events, from `s` on.
pub open spec fn actions(s: Session, evs: Seq<Event>) -> Seq<Action>
    decreases evs.len(),
{
    if evs.len() == 0 {
        Seq::empty()
    } else {
        seq![next(s, evs[0]).1] + actions(next(s, evs[0]).0, evs.drop_first())
    }
}

/// The process exit code for an outcome.
pub open spec fn exit_code_of(r: Result<(), RunError>) -> i32 {
    match r {
        Ok(()) => 0,
        Err(RunError::OutputCollision) => 1,
        Err(RunError::FetchFailure) => 2,
        Err(RunError::PersistFailure) => 3,
    }
}

/// Relies on reqwest's `StatusCode::from_u16`, which accepts 100 to 999, and
/// `StatusCode::is_success`, which holds for 200 to 299.
#[verifier::external_body]
fn status_is_success(status: u16) -> (r: bool)
    ensures
        r == is_success(status),
{
    match reqwest::StatusCode::from_u16(status) {
        Ok(code) => code.is_success(),
        Err(_) => false,
    }
}

impl Session {
    /// A new run and its first action: looking at the output path.
    pub fn start() -> (r: (Session, Action))
        ensures
            r == (Session::CheckingTarget, Action::CheckTarget),
    {
        (Session::CheckingTarget, Action::CheckTarget)
    }

    /// The next stage and action after `e`.
    pub fn step(self, e: Event) -> (r: (Session, Action))
        ensures
            r == next(self, e),
    {
        match (self, e) {
            (Session::CheckingTarget, Event::TargetChecked(exists)) => if exists {
                (Session::Finished, Action::Finish(Err(RunError::OutputCollision)))
            } else {
                (Session::Requesting, Action::Request)
            },
            (Session::Requesting, Event::Responded(status)) => if status_is_success(status) {
                (Session::Receiving, Action::ReadBody)
            } else {
                (Session::Finished, Action::Finish(Err(RunError::FetchFailure)))
            },
            (Session::Requesting, Event::RequestFailed) => (
                Session::Finished,
                Action::Finish(Err(RunError::FetchFailure)),
            ),
            (Session::Receiving, Event::BodyRead(ok)) => if ok {
                (Session::Writing, Action::WriteFile)
            } else {
                (Session::Finished, Action::Finish(Err(RunError::FetchFailure)))
            },
            (Session::Writing, Event::Written(ok)) => if ok {
                (Session::Finished, Action::Finish(Ok(())))
            } else {
                (Session::Finished, Action::Discard(RunError::PersistFailure))
            },
            _ => (self, Action::Idle),
        }
    }
}

/// The exit code for an outcome: 0 on success, 1 when the output path was
/// taken, 2 when fetching failed and 3 when saving failed.
pub fn exit_code(r: &Result<(), RunError>) -> (code: i32)
    ensures
        code == exit_code_of(*r),
{
    match r {
        Ok(()) => 0,
        Err(RunError::OutputCollision) => 1,
        Err(RunError::FetchFailure) => 2,
        Err(RunError::PersistFailure) => 3,
    }
}

/// A finished run does nothing more, whatever it is told.
pub proof fn lemma_finished_stays_idle(evs: Seq<Event>)
    ensures
        actions(Session::Finished, evs).len() == evs.len(),
        forall|i: int| 0 <= i < evs.len() ==> #[trigger] actions(Session::Finished, evs)[i]
            == Action::Idle,
    decreases evs.len(),
{
    if evs.len() > 0 {
        lemma_finished_stays_idle(evs.drop_first());
        let rest = actions(Session::Finished, evs.drop_first());
        assert(next(Session::Finished, evs[0]) == (Session::Finished, Action::Idle));
        assert(actions(Session::Finished, evs) == seq![Action::Idle] + rest);
        assert forall|i: int| 0 <= i < evs.len() implies #[trigger] actions(
            Session::Finished,
            evs,
        )[i] == Action::Idle by {
            if i > 0 {
                assert(actions(Session::Finished, evs)[i] == rest[i - 1]);
            }
        }
    }
}

/// When the output path is taken, the run ends at once with exit code 1, and
/// no request is sent and no file written afterwards.
pub proof fn lemma_collision_never_fetches(evs: Seq<Event>)
    ensures
        next(Session::CheckingTarget, Event::TargetChecked(true)) == (
            Session::Finished,
            Action::Finish(Err(RunError::OutputCollision)),
        ),
        exit_code_of(Err(RunError::OutputCollision)) == 1,
        forall|i: int| 0 <= i < evs.len() ==> {
            let a = #[trigger] actions(Session::Finished, evs)[i];
            a != Action::Request && a != Action::WriteFile
        },
{
    lemma_finished_stays_idle(evs);
}

/// A non-success status ends the run with a non-zero exit code, and no file
/// is written afterwards.
pub proof fn lemma_failed_status_writes_nothing(status: u16, evs: Seq<Event>)
    requires
        !is_success(status),
    ensures
        next(Session::Requesting, Event::Responded(status)) == (
            Session::Finished,
            Action::Finish(Err(RunError::FetchFailure)),
        ),
        exit_code_of(Err(RunError::FetchFailure)) != 0,
        forall|i: int| 0 <= i < evs.len() ==> #[trigger] actions(Session::Finished, evs)[i]
            != Action::WriteFile,
{
    lemma_finished_stays_idle(evs);
}

} // verus!
